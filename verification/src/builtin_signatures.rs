//! Type signatures of the MeTTa built-in operations.
//!
//! A registry of names, arity bounds and arrow types of every built-in, used
//! for arity validation, type compatibility checks and return type inference.

use vstd::prelude::*;

use crate::compiler::work_item::{BinaryOp, binary_name};
use crate::text::str_eq;

verus! {

/// Type expression of a built-in signature.
#[derive(PartialEq, Debug)]
pub enum TypeExpr {
    /// Numeric type (integers and floats).
    Number,
    /// Boolean type.
    Bool,
    /// String type.
    String,
    /// Atom meta-type (unevaluated).
    Atom,
    /// Expression meta-type (unevaluated).
    Expression,
    /// Variable meta-type.
    Variable,
    /// Space type.
    Space,
    /// Mutable state (legacy).
    State,
    /// State monad with element type.
    StateMonad(Box<TypeExpr>),
    /// Unit type (empty result).
    Unit,
    /// Error type.
    Error,
    /// Type of type expressions.
    Type,
    /// The universal type that matches any type.
    Undefined,
    /// Grounded type.
    Grounded,
    /// List with element type.
    List(Box<TypeExpr>),
    /// Function type: argument types and return type.
    Arrow(Vec<TypeExpr>, Box<TypeExpr>),
    /// Type variable for polymorphism.
    Var(&'static str),
    /// Accepts anything.
    Any,
    /// Pattern context (may contain variables).
    Pattern,
    /// Binding list of let*.
    Bindings,
    /// Expression that will be evaluated.
    Expr,
    /// IO monad with result type.
    IO(Box<TypeExpr>),
}

/// Mathematical model of a [`TypeExpr`].
pub ghost enum TypeModel {
    Number,
    Bool,
    String,
    Atom,
    Expression,
    Variable,
    Space,
    State,
    StateMonad(Box<TypeModel>),
    Unit,
    Error,
    Type,
    Undefined,
    Grounded,
    List(Box<TypeModel>),
    Arrow(Seq<TypeModel>, Box<TypeModel>),
    Var(Seq<char>),
    Any,
    Pattern,
    Bindings,
    Expr,
    IO(Box<TypeModel>),
}

impl TypeExpr {
    /// The model of this type expression.
    pub open spec fn view(&self) -> TypeModel
        decreases self,
    {
        match self {
            TypeExpr::Number => TypeModel::Number,
            TypeExpr::Bool => TypeModel::Bool,
            TypeExpr::String => TypeModel::String,
            TypeExpr::Atom => TypeModel::Atom,
            TypeExpr::Expression => TypeModel::Expression,
            TypeExpr::Variable => TypeModel::Variable,
            TypeExpr::Space => TypeModel::Space,
            TypeExpr::State => TypeModel::State,
            TypeExpr::StateMonad(t) => TypeModel::StateMonad(Box::new(t.view())),
            TypeExpr::Unit => TypeModel::Unit,
            TypeExpr::Error => TypeModel::Error,
            TypeExpr::Type => TypeModel::Type,
            TypeExpr::Undefined => TypeModel::Undefined,
            TypeExpr::Grounded => TypeModel::Grounded,
            TypeExpr::List(t) => TypeModel::List(Box::new(t.view())),
            TypeExpr::Arrow(args, ret) => TypeModel::Arrow(
                Seq::new(
                    args.len() as nat,
                    |i: int|
                        if 0 <= i < args.len() {
                            args@[i].view()
                        } else {
                            TypeModel::Any
                        },
                ),
                Box::new(ret.view()),
            ),
            TypeExpr::Var(s) => TypeModel::Var(s@),
            TypeExpr::Any => TypeModel::Any,
            TypeExpr::Pattern => TypeModel::Pattern,
            TypeExpr::Bindings => TypeModel::Bindings,
            TypeExpr::Expr => TypeModel::Expr,
            TypeExpr::IO(t) => TypeModel::IO(Box::new(t.view())),
        }
    }
}

/// The models of a sequence of type expressions.
pub open spec fn types_view(ts: Seq<TypeExpr>) -> Seq<TypeModel> {
    Seq::new(ts.len(), |i: int| ts[i].view())
}

/// The model of a function type built from argument and return types.
pub proof fn lemma_arrow_view(t: &TypeExpr, args: &Vec<TypeExpr>, ret: &Box<TypeExpr>)
    requires
        *t == TypeExpr::Arrow(*args, *ret),
    ensures
        t.view() == TypeModel::Arrow(types_view(args@), Box::new(ret.view())),
{
    assert(t.view()->Arrow_0 =~= types_view(args@));
}

/// Build a function type.
pub fn arrow(args: Vec<TypeExpr>, ret: TypeExpr) -> (r: TypeExpr)
    ensures
        r.view() == TypeModel::Arrow(types_view(args@), Box::new(ret.view())),
{
    let b = Box::new(ret);
    let r = TypeExpr::Arrow(args, b);
    proof {
        if let TypeExpr::Arrow(a, rr) = &r {
            lemma_arrow_view(&r, a, rr);
        }
    }
    r
}

/// Build a state monad type.
pub fn state_monad(elem: TypeExpr) -> (r: TypeExpr)
    ensures
        r.view() == TypeModel::StateMonad(Box::new(elem.view())),
{
    TypeExpr::StateMonad(Box::new(elem))
}

/// Build an IO monad type.
pub fn io(elem: TypeExpr) -> (r: TypeExpr)
    ensures
        r.view() == TypeModel::IO(Box::new(elem.view())),
{
    TypeExpr::IO(Box::new(elem))
}

/// Build a list type.
pub fn list(elem: TypeExpr) -> (r: TypeExpr)
    ensures
        r.view() == TypeModel::List(Box::new(elem.view())),
{
    TypeExpr::List(Box::new(elem))
}

/// Signature of a built-in operation: name, arity bounds and type.
#[derive(Debug)]
pub struct BuiltinSignature {
    /// The operation name.
    pub name: &'static str,
    /// Minimum number of arguments.
    pub min_arity: usize,
    /// Maximum number of arguments.
    pub max_arity: usize,
    /// Full arrow type of the operation.
    pub type_sig: TypeExpr,
}

/// Mathematical model of a [`BuiltinSignature`].
pub ghost struct SigModel {
    pub name: Seq<char>,
    pub min_arity: usize,
    pub max_arity: usize,
    pub type_sig: TypeModel,
}

impl BuiltinSignature {
    /// The model of this signature.
    pub open spec fn view(&self) -> SigModel {
        SigModel {
            name: self.name@,
            min_arity: self.min_arity,
            max_arity: self.max_arity,
            type_sig: self.type_sig.view(),
        }
    }
}

/// The models of a sequence of signatures.
pub open spec fn sigs_view(s: Seq<BuiltinSignature>) -> Seq<SigModel> {
    Seq::new(s.len(), |i: int| s[i].view())
}

/// A function type model.
pub open spec fn arrow_model(args: Seq<TypeModel>, ret: TypeModel) -> TypeModel {
    TypeModel::Arrow(args, Box::new(ret))
}

/// A signature model.
pub open spec fn sig_model(name: Seq<char>, min_arity: usize, max_arity: usize, type_sig: TypeModel) -> SigModel {
    SigModel { name, min_arity, max_arity, type_sig }
}


fn duplicate_types(ts: &Vec<TypeExpr>, Ghost(parent): Ghost<&TypeExpr>) -> (r: Vec<TypeExpr>)
    requires
        parent matches TypeExpr::Arrow(a, _) && a == *ts,
    ensures
        types_view(r@) == types_view(ts@),
    decreases parent, 0nat,
{
    let mut out: Vec<TypeExpr> = Vec::new();
    let mut i: usize = 0;
    while i < ts.len()
        invariant
            parent matches TypeExpr::Arrow(a, _) && a == *ts,
            i <= ts@.len(),
            out@.len() == i,
            forall|j: int| 0 <= j < i ==> out@[j].view() == ts@[j].view(),
        decreases ts@.len() - i,
    {
        proof {
            vstd::std_specs::vec::axiom_vec_index_decreases(*ts, i as int);
            assert(decreases_to!(*parent => (*parent)->Arrow_0));
        }
        out.push(ts[i].duplicate());
        i = i + 1;
    }
    assert(types_view(out@) =~= types_view(ts@));
    out
}

impl TypeExpr {
    /// A copy of this type expression with the same model.
    pub fn duplicate(&self) -> (r: TypeExpr)
        ensures
            r.view() == self.view(),
        decreases self, 1nat,
    {
        match self {
            TypeExpr::Number => TypeExpr::Number,
            TypeExpr::Bool => TypeExpr::Bool,
            TypeExpr::String => TypeExpr::String,
            TypeExpr::Atom => TypeExpr::Atom,
            TypeExpr::Expression => TypeExpr::Expression,
            TypeExpr::Variable => TypeExpr::Variable,
            TypeExpr::Space => TypeExpr::Space,
            TypeExpr::State => TypeExpr::State,
            TypeExpr::StateMonad(t) => TypeExpr::StateMonad(Box::new(t.duplicate())),
            TypeExpr::Unit => TypeExpr::Unit,
            TypeExpr::Error => TypeExpr::Error,
            TypeExpr::Type => TypeExpr::Type,
            TypeExpr::Undefined => TypeExpr::Undefined,
            TypeExpr::Grounded => TypeExpr::Grounded,
            TypeExpr::List(t) => TypeExpr::List(Box::new(t.duplicate())),
            TypeExpr::Arrow(args, ret) => {
                proof {
                    lemma_arrow_view(self, args, ret);
                }
                let a = duplicate_types(args, Ghost(self));
                let r = ret.duplicate();
                arrow(a, r)
            },
            TypeExpr::Var(s) => TypeExpr::Var(s),
            TypeExpr::Any => TypeExpr::Any,
            TypeExpr::Pattern => TypeExpr::Pattern,
            TypeExpr::Bindings => TypeExpr::Bindings,
            TypeExpr::Expr => TypeExpr::Expr,
            TypeExpr::IO(t) => TypeExpr::IO(Box::new(t.duplicate())),
        }
    }
}

impl Clone for TypeExpr {
    fn clone(&self) -> (r: Self)
        ensures
            r.view() == self.view(),
    {
        self.duplicate()
    }
}


fn args0() -> (r: Vec<TypeExpr>)
    ensures
        types_view(r@) == Seq::<TypeModel>::empty(),
{
    let r = Vec::new();
    assert(types_view(r@) =~= Seq::<TypeModel>::empty());
    r
}

fn args1(a: TypeExpr) -> (r: Vec<TypeExpr>)
    ensures
        types_view(r@) == seq![a.view()],
{
    let mut r = Vec::new();
    r.push(a);
    assert(types_view(r@) =~= seq![a.view()]);
    r
}

fn args2(a: TypeExpr, b: TypeExpr) -> (r: Vec<TypeExpr>)
    ensures
        types_view(r@) == seq![a.view(), b.view()],
{
    let mut r = Vec::new();
    r.push(a);
    r.push(b);
    assert(types_view(r@) =~= seq![a.view(), b.view()]);
    r
}

fn args3(a: TypeExpr, b: TypeExpr, c: TypeExpr) -> (r: Vec<TypeExpr>)
    ensures
        types_view(r@) == seq![a.view(), b.view(), c.view()],
{
    let mut r = Vec::new();
    r.push(a);
    r.push(b);
    r.push(c);
    assert(types_view(r@) =~= seq![a.view(), b.view(), c.view()]);
    r
}

fn args4(a: TypeExpr, b: TypeExpr, c: TypeExpr, d: TypeExpr) -> (r: Vec<TypeExpr>)
    ensures
        types_view(r@) == seq![a.view(), b.view(), c.view(), d.view()],
{
    let mut r = Vec::new();
    r.push(a);
    r.push(b);
    r.push(c);
    r.push(d);
    assert(types_view(r@) =~= seq![a.view(), b.view(), c.view(), d.view()]);
    r
}

fn args5(a: TypeExpr, b: TypeExpr, c: TypeExpr, d: TypeExpr, e: TypeExpr) -> (r: Vec<TypeExpr>)
    ensures
        types_view(r@) == seq![a.view(), b.view(), c.view(), d.view(), e.view()],
{
    let mut r = Vec::new();
    r.push(a);
    r.push(b);
    r.push(c);
    r.push(d);
    r.push(e);
    assert(types_view(r@) =~= seq![a.view(), b.view(), c.view(), d.view(), e.view()]);
    r
}

/// Signatures of the registry, part 1.
pub open spec fn signature_part0() -> Seq<SigModel> {
    seq![
        sig_model("+"@, 2usize, 2usize, arrow_model(seq![TypeModel::Number, TypeModel::Number], TypeModel::Number)),
        sig_model("-"@, 2usize, 2usize, arrow_model(seq![TypeModel::Number, TypeModel::Number], TypeModel::Number)),
        sig_model("*"@, 2usize, 2usize, arrow_model(seq![TypeModel::Number, TypeModel::Number], TypeModel::Number)),
        sig_model("/"@, 2usize, 2usize, arrow_model(seq![TypeModel::Number, TypeModel::Number], TypeModel::Number)),
        sig_model("%"@, 2usize, 2usize, arrow_model(seq![TypeModel::Number, TypeModel::Number], TypeModel::Number)),
        sig_model("min"@, 2usize, 2usize, arrow_model(seq![TypeModel::Number, TypeModel::Number], TypeModel::Number)),
        sig_model("max"@, 2usize, 2usize, arrow_model(seq![TypeModel::Number, TypeModel::Number], TypeModel::Number)),
        sig_model("/safe"@, 2usize, 2usize, arrow_model(seq![TypeModel::Number, TypeModel::Number], TypeModel::Number)),
        sig_model("clamp"@, 3usize, 3usize, arrow_model(seq![TypeModel::Number, TypeModel::Number, TypeModel::Number], TypeModel::Number)),
        sig_model("floor-div"@, 2usize, 2usize, arrow_model(seq![TypeModel::Number, TypeModel::Number], TypeModel::Number)),
        sig_model("abs"@, 1usize, 1usize, arrow_model(seq![TypeModel::Number], TypeModel::Number)),
    ]
}

/// Signatures of the registry, part 2.
pub open spec fn signature_part1() -> Seq<SigModel> {
    seq![
        sig_model("abs-math"@, 1usize, 1usize, arrow_model(seq![TypeModel::Number], TypeModel::Number)),
        sig_model("floor"@, 1usize, 1usize, arrow_model(seq![TypeModel::Number], TypeModel::Number)),
        sig_model("floor-math"@, 1usize, 1usize, arrow_model(seq![TypeModel::Number], TypeModel::Number)),
        sig_model("ceil"@, 1usize, 1usize, arrow_model(seq![TypeModel::Number], TypeModel::Number)),
        sig_model("ceil-math"@, 1usize, 1usize, arrow_model(seq![TypeModel::Number], TypeModel::Number)),
        sig_model("round"@, 1usize, 1usize, arrow_model(seq![TypeModel::Number], TypeModel::Number)),
        sig_model("round-math"@, 1usize, 1usize, arrow_model(seq![TypeModel::Number], TypeModel::Number)),
        sig_model("sqrt"@, 1usize, 1usize, arrow_model(seq![TypeModel::Number], TypeModel::Number)),
        sig_model("sqrt-math"@, 1usize, 1usize, arrow_model(seq![TypeModel::Number], TypeModel::Number)),
        sig_model("trunc"@, 1usize, 1usize, arrow_model(seq![TypeModel::Number], TypeModel::Number)),
        sig_model("trunc-math"@, 1usize, 1usize, arrow_model(seq![TypeModel::Number], TypeModel::Number)),
    ]
}

/// Signatures of the registry, part 3.
pub open spec fn signature_part2() -> Seq<SigModel> {
    seq![
        sig_model("pow"@, 2usize, 2usize, arrow_model(seq![TypeModel::Number, TypeModel::Number], TypeModel::Number)),
        sig_model("pow-math"@, 2usize, 2usize, arrow_model(seq![TypeModel::Number, TypeModel::Number], TypeModel::Number)),
        sig_model("log"@, 2usize, 2usize, arrow_model(seq![TypeModel::Number, TypeModel::Number], TypeModel::Number)),
        sig_model("log-math"@, 2usize, 2usize, arrow_model(seq![TypeModel::Number, TypeModel::Number], TypeModel::Number)),
        sig_model("sin-math"@, 1usize, 1usize, arrow_model(seq![TypeModel::Number], TypeModel::Number)),
        sig_model("cos-math"@, 1usize, 1usize, arrow_model(seq![TypeModel::Number], TypeModel::Number)),
        sig_model("tan-math"@, 1usize, 1usize, arrow_model(seq![TypeModel::Number], TypeModel::Number)),
        sig_model("asin-math"@, 1usize, 1usize, arrow_model(seq![TypeModel::Number], TypeModel::Number)),
        sig_model("acos-math"@, 1usize, 1usize, arrow_model(seq![TypeModel::Number], TypeModel::Number)),
        sig_model("atan-math"@, 1usize, 1usize, arrow_model(seq![TypeModel::Number], TypeModel::Number)),
        sig_model("isnan-math"@, 1usize, 1usize, arrow_model(seq![TypeModel::Number], TypeModel::Bool)),
    ]
}

/// Signatures of the registry, part 4.
pub open spec fn signature_part3() -> Seq<SigModel> {
    seq![
        sig_model("isinf-math"@, 1usize, 1usize, arrow_model(seq![TypeModel::Number], TypeModel::Bool)),
        sig_model("<"@, 2usize, 2usize, arrow_model(seq![TypeModel::Number, TypeModel::Number], TypeModel::Bool)),
        sig_model("<="@, 2usize, 2usize, arrow_model(seq![TypeModel::Number, TypeModel::Number], TypeModel::Bool)),
        sig_model(">"@, 2usize, 2usize, arrow_model(seq![TypeModel::Number, TypeModel::Number], TypeModel::Bool)),
        sig_model(">="@, 2usize, 2usize, arrow_model(seq![TypeModel::Number, TypeModel::Number], TypeModel::Bool)),
        sig_model("=="@, 2usize, 2usize, arrow_model(seq![TypeModel::Var("a"@), TypeModel::Var("a"@)], TypeModel::Bool)),
        sig_model("!="@, 2usize, 2usize, arrow_model(seq![TypeModel::Var("a"@), TypeModel::Var("a"@)], TypeModel::Bool)),
        sig_model("and"@, 2usize, 2usize, arrow_model(seq![TypeModel::Bool, TypeModel::Bool], TypeModel::Bool)),
        sig_model("or"@, 2usize, 2usize, arrow_model(seq![TypeModel::Bool, TypeModel::Bool], TypeModel::Bool)),
        sig_model("not"@, 1usize, 1usize, arrow_model(seq![TypeModel::Bool], TypeModel::Bool)),
        sig_model("xor"@, 2usize, 2usize, arrow_model(seq![TypeModel::Bool, TypeModel::Bool], TypeModel::Bool)),
    ]
}

/// Signatures of the registry, part 5.
pub open spec fn signature_part4() -> Seq<SigModel> {
    seq![
        sig_model("if"@, 3usize, 3usize, arrow_model(seq![TypeModel::Bool, TypeModel::Atom, TypeModel::Atom], TypeModel::Var("t"@))),
        sig_model("case"@, 2usize, usize::MAX, arrow_model(seq![TypeModel::Atom, TypeModel::Expression], TypeModel::Undefined)),
        sig_model("switch"@, 2usize, usize::MAX, arrow_model(seq![TypeModel::Undefined, TypeModel::Expression], TypeModel::Undefined)),
        sig_model("if-equal"@, 4usize, 4usize, arrow_model(seq![TypeModel::Atom, TypeModel::Atom, TypeModel::Atom, TypeModel::Atom], TypeModel::Undefined)),
        sig_model("if-reducible"@, 3usize, 3usize, arrow_model(seq![TypeModel::Atom, TypeModel::Atom, TypeModel::Atom], TypeModel::Undefined)),
        sig_model("let"@, 3usize, 3usize, arrow_model(seq![TypeModel::Atom, TypeModel::Undefined, TypeModel::Atom], TypeModel::Undefined)),
        sig_model("let*"@, 2usize, 2usize, arrow_model(seq![TypeModel::Bindings, TypeModel::Var("a"@)], TypeModel::Var("a"@))),
        sig_model("unify"@, 4usize, 4usize, arrow_model(seq![TypeModel::Atom, TypeModel::Atom, TypeModel::Atom, TypeModel::Atom], TypeModel::Undefined)),
        sig_model("function"@, 1usize, 1usize, arrow_model(seq![TypeModel::Atom], TypeModel::Atom)),
        sig_model("return"@, 1usize, 1usize, arrow_model(seq![TypeModel::Var("t"@)], TypeModel::Var("t"@))),
        sig_model("chain"@, 3usize, 3usize, arrow_model(seq![TypeModel::Atom, TypeModel::Variable, TypeModel::Atom], TypeModel::Undefined)),
    ]
}

/// Signatures of the registry, part 6.
pub open spec fn signature_part5() -> Seq<SigModel> {
    seq![
        sig_model("="@, 2usize, 2usize, arrow_model(seq![TypeModel::Var("t"@), TypeModel::Var("t"@)], TypeModel::Undefined)),
        sig_model(":"@, 2usize, 2usize, arrow_model(seq![TypeModel::Var("a"@), TypeModel::Type], TypeModel::Unit)),
        sig_model("match"@, 3usize, 4usize, arrow_model(seq![TypeModel::Space, TypeModel::Atom, TypeModel::Atom], TypeModel::Undefined)),
        sig_model("match-or"@, 4usize, 4usize, arrow_model(seq![TypeModel::Space, TypeModel::Atom, TypeModel::Atom, TypeModel::Atom], TypeModel::Undefined)),
        sig_model("new-space"@, 0usize, 0usize, arrow_model(seq![], TypeModel::Space)),
        sig_model("add-atom"@, 2usize, 2usize, arrow_model(seq![TypeModel::Space, TypeModel::Atom], TypeModel::Unit)),
        sig_model("remove-atom"@, 2usize, 2usize, arrow_model(seq![TypeModel::Space, TypeModel::Atom], TypeModel::Unit)),
        sig_model("get-atoms"@, 1usize, 1usize, arrow_model(seq![TypeModel::Space], TypeModel::Atom)),
        sig_model("collapse"@, 1usize, 1usize, arrow_model(seq![TypeModel::Atom], TypeModel::Atom)),
        sig_model("collapse-bind"@, 1usize, 1usize, arrow_model(seq![TypeModel::Atom], TypeModel::Expression)),
        sig_model("car-atom"@, 1usize, 1usize, arrow_model(seq![TypeModel::Expression], TypeModel::Undefined)),
    ]
}

/// Signatures of the registry, part 7.
pub open spec fn signature_part6() -> Seq<SigModel> {
    seq![
        sig_model("cdr-atom"@, 1usize, 1usize, arrow_model(seq![TypeModel::Expression], TypeModel::Expression)),
        sig_model("cons-atom"@, 2usize, 2usize, arrow_model(seq![TypeModel::Atom, TypeModel::Expression], TypeModel::Atom)),
        sig_model("decons-atom"@, 1usize, 1usize, arrow_model(seq![TypeModel::Expression], TypeModel::Atom)),
        sig_model("size-atom"@, 1usize, 1usize, arrow_model(seq![TypeModel::Expression], TypeModel::Number)),
        sig_model("max-atom"@, 1usize, 1usize, arrow_model(seq![TypeModel::Expression], TypeModel::Number)),
        sig_model("min-atom"@, 1usize, 1usize, arrow_model(seq![TypeModel::Expression], TypeModel::Number)),
        sig_model("index-atom"@, 2usize, 2usize, arrow_model(seq![TypeModel::Expression, TypeModel::Number], TypeModel::Atom)),
        sig_model("empty"@, 0usize, 0usize, arrow_model(seq![], TypeModel::Undefined)),
        sig_model("tuple-concat"@, 2usize, 2usize, arrow_model(seq![TypeModel::Expression, TypeModel::Expression], TypeModel::Expression)),
        sig_model("tuple-count"@, 1usize, 1usize, arrow_model(seq![TypeModel::Expression], TypeModel::Number)),
        sig_model("without"@, 2usize, 2usize, arrow_model(seq![TypeModel::Expression, TypeModel::Atom], TypeModel::Expression)),
    ]
}

/// Signatures of the registry, part 8.
pub open spec fn signature_part7() -> Seq<SigModel> {
    seq![
        sig_model("element-of"@, 2usize, 2usize, arrow_model(seq![TypeModel::Atom, TypeModel::Expression], TypeModel::Bool)),
        sig_model("range"@, 2usize, 2usize, arrow_model(seq![TypeModel::Number, TypeModel::Number], TypeModel::Expression)),
        sig_model("reverse-atom"@, 1usize, 1usize, arrow_model(seq![TypeModel::Expression], TypeModel::Expression)),
        sig_model("flatten-atom"@, 1usize, 1usize, arrow_model(seq![TypeModel::Expression], TypeModel::Expression)),
        sig_model("zip-atom"@, 2usize, 2usize, arrow_model(seq![TypeModel::Expression, TypeModel::Expression], TypeModel::Expression)),
        sig_model("take-atom"@, 2usize, 2usize, arrow_model(seq![TypeModel::Expression, TypeModel::Number], TypeModel::Expression)),
        sig_model("drop-atom"@, 2usize, 2usize, arrow_model(seq![TypeModel::Expression, TypeModel::Number], TypeModel::Expression)),
        sig_model("map-atom"@, 3usize, 3usize, arrow_model(seq![TypeModel::Expression, TypeModel::Variable, TypeModel::Atom], TypeModel::Expression)),
        sig_model("filter-atom"@, 3usize, 3usize, arrow_model(seq![TypeModel::Expression, TypeModel::Variable, TypeModel::Atom], TypeModel::Expression)),
        sig_model("foldl-atom"@, 5usize, 5usize, arrow_model(seq![TypeModel::Expression, TypeModel::Atom, TypeModel::Variable, TypeModel::Variable, TypeModel::Atom], TypeModel::Undefined)),
        sig_model("sort-tuple"@, 2usize, 2usize, arrow_model(seq![TypeModel::Expression, TypeModel::Atom], TypeModel::Expression)),
    ]
}

/// Signatures of the registry, part 9.
pub open spec fn signature_part8() -> Seq<SigModel> {
    seq![
        sig_model("best-candidate"@, 2usize, 2usize, arrow_model(seq![TypeModel::Expression, TypeModel::Atom], TypeModel::Atom)),
        sig_model("unique-atom"@, 1usize, 1usize, arrow_model(seq![TypeModel::Expression], TypeModel::Atom)),
        sig_model("union-atom"@, 2usize, 2usize, arrow_model(seq![TypeModel::Expression, TypeModel::Expression], TypeModel::Atom)),
        sig_model("intersection-atom"@, 2usize, 2usize, arrow_model(seq![TypeModel::Expression, TypeModel::Expression], TypeModel::Atom)),
        sig_model("subtraction-atom"@, 2usize, 2usize, arrow_model(seq![TypeModel::Expression, TypeModel::Expression], TypeModel::Atom)),
        sig_model("superpose"@, 1usize, 1usize, arrow_model(seq![TypeModel::Expression], TypeModel::Undefined)),
        sig_model("amb"@, 1usize, usize::MAX, arrow_model(seq![TypeModel::Atom], TypeModel::Undefined)),
        sig_model("guard"@, 2usize, 2usize, arrow_model(seq![TypeModel::Bool, TypeModel::Atom], TypeModel::Atom)),
        sig_model("commit"@, 1usize, 1usize, arrow_model(seq![TypeModel::Atom], TypeModel::Atom)),
        sig_model("backtrack"@, 0usize, 0usize, arrow_model(seq![], TypeModel::Undefined)),
        sig_model("quote"@, 1usize, 1usize, arrow_model(seq![TypeModel::Atom], TypeModel::Atom)),
    ]
}

/// Signatures of the registry, part 10.
pub open spec fn signature_part9() -> Seq<SigModel> {
    seq![
        sig_model("unquote"@, 1usize, 1usize, arrow_model(seq![TypeModel::Undefined], TypeModel::Undefined)),
        sig_model("eval"@, 1usize, 1usize, arrow_model(seq![TypeModel::Atom], TypeModel::Atom)),
        sig_model("!"@, 1usize, 1usize, arrow_model(seq![TypeModel::Atom], TypeModel::Atom)),
        sig_model("sealed"@, 2usize, 2usize, arrow_model(seq![TypeModel::Expression, TypeModel::Atom], TypeModel::Atom)),
        sig_model("atom-subst"@, 3usize, 3usize, arrow_model(seq![TypeModel::Atom, TypeModel::Variable, TypeModel::Atom], TypeModel::Atom)),
        sig_model("nop"@, 0usize, usize::MAX, arrow_model(seq![TypeModel::Undefined], TypeModel::Undefined)),
        sig_model("get-type"@, 1usize, 1usize, arrow_model(seq![TypeModel::Var("a"@)], TypeModel::Type)),
        sig_model("check-type"@, 2usize, 2usize, arrow_model(seq![TypeModel::Var("a"@), TypeModel::Type], TypeModel::Bool)),
        sig_model("get-metatype"@, 1usize, 1usize, arrow_model(seq![TypeModel::Var("a"@)], TypeModel::Type)),
        sig_model("validate-atom"@, 1usize, 1usize, arrow_model(seq![TypeModel::Atom], TypeModel::Bool)),
        sig_model("get-type-space"@, 2usize, 2usize, arrow_model(seq![TypeModel::Space, TypeModel::Atom], TypeModel::Type)),
    ]
}

/// Signatures of the registry, part 11.
pub open spec fn signature_part10() -> Seq<SigModel> {
    seq![
        sig_model("is-function"@, 1usize, 1usize, arrow_model(seq![TypeModel::Type], TypeModel::Bool)),
        sig_model("type-cast"@, 3usize, 3usize, arrow_model(seq![TypeModel::Var("a"@), TypeModel::Type, TypeModel::Atom], TypeModel::Var("a"@))),
        sig_model("metta"@, 3usize, 3usize, arrow_model(seq![TypeModel::Atom, TypeModel::Type, TypeModel::Atom], TypeModel::Atom)),
        sig_model("match-type-or"@, 3usize, 3usize, arrow_model(seq![TypeModel::Bool, TypeModel::Atom, TypeModel::Atom], TypeModel::Bool)),
        sig_model("first-from-pair"@, 1usize, 1usize, arrow_model(seq![TypeModel::Atom], TypeModel::Atom)),
        sig_model(":<"@, 2usize, 2usize, arrow_model(seq![TypeModel::Atom, TypeModel::Atom], TypeModel::Atom)),
        sig_model("Error"@, 2usize, 2usize, arrow_model(seq![TypeModel::Atom, TypeModel::Atom], TypeModel::Error)),
        sig_model("error"@, 2usize, 2usize, arrow_model(seq![TypeModel::Atom, TypeModel::Atom], TypeModel::Error)),
        sig_model("is-error"@, 1usize, 1usize, arrow_model(seq![TypeModel::Var("a"@)], TypeModel::Bool)),
        sig_model("catch"@, 2usize, 2usize, arrow_model(seq![TypeModel::Var("a"@), TypeModel::Var("a"@)], TypeModel::Var("a"@))),
        sig_model("new-state"@, 1usize, 1usize, arrow_model(seq![TypeModel::Var("t"@)], TypeModel::StateMonad(Box::new(TypeModel::Var("t"@))))),
    ]
}

/// Signatures of the registry, part 12.
pub open spec fn signature_part11() -> Seq<SigModel> {
    seq![
        sig_model("get-state"@, 1usize, 1usize, arrow_model(seq![TypeModel::StateMonad(Box::new(TypeModel::Var("t"@)))], TypeModel::Var("t"@))),
        sig_model("change-state!"@, 2usize, 2usize, arrow_model(seq![TypeModel::StateMonad(Box::new(TypeModel::Var("t"@))), TypeModel::Var("t"@)], TypeModel::StateMonad(Box::new(TypeModel::Var("t"@))))),
        sig_model("println!"@, 1usize, 1usize, arrow_model(seq![TypeModel::Undefined], TypeModel::IO(Box::new(TypeModel::Unit)))),
        sig_model("trace!"@, 2usize, 2usize, arrow_model(seq![TypeModel::Undefined, TypeModel::Atom], TypeModel::IO(Box::new(TypeModel::Undefined)))),
        sig_model("repr"@, 1usize, 1usize, arrow_model(seq![TypeModel::Var("a"@)], TypeModel::String)),
        sig_model("format-args"@, 1usize, usize::MAX, arrow_model(seq![TypeModel::String, TypeModel::Expression], TypeModel::String)),
        sig_model("=alpha"@, 2usize, 2usize, arrow_model(seq![TypeModel::Atom, TypeModel::Atom], TypeModel::Bool)),
        sig_model("include"@, 1usize, 2usize, arrow_model(seq![TypeModel::Atom], TypeModel::Unit)),
        sig_model("import!"@, 2usize, 2usize, arrow_model(seq![TypeModel::Space, TypeModel::Atom], TypeModel::Unit)),
        sig_model("bind!"@, 2usize, 2usize, arrow_model(seq![TypeModel::Atom, TypeModel::Var("a"@)], TypeModel::Unit)),
        sig_model("mod-space!"@, 1usize, 1usize, arrow_model(seq![TypeModel::Atom], TypeModel::Space)),
    ]
}

/// Signatures of the registry, part 13.
pub open spec fn signature_part12() -> Seq<SigModel> {
    seq![
        sig_model("print-mods!"@, 0usize, 0usize, arrow_model(seq![], TypeModel::Unit)),
        sig_model("pragma!"@, 1usize, usize::MAX, arrow_model(seq![TypeModel::Undefined], TypeModel::Unit)),
        sig_model("new-memo"@, 0usize, 0usize, arrow_model(seq![], TypeModel::Atom)),
        sig_model("memo"@, 2usize, 2usize, arrow_model(seq![TypeModel::Atom, TypeModel::Atom], TypeModel::Expression)),
        sig_model("memo-first"@, 2usize, 2usize, arrow_model(seq![TypeModel::Atom, TypeModel::Atom], TypeModel::Atom)),
        sig_model("clear-memo!"@, 1usize, 1usize, arrow_model(seq![TypeModel::Atom], TypeModel::Unit)),
        sig_model("memo-stats"@, 1usize, 1usize, arrow_model(seq![TypeModel::Atom], TypeModel::Expression)),
        sig_model("assertEqual"@, 2usize, 2usize, arrow_model(seq![TypeModel::Atom, TypeModel::Atom], TypeModel::Unit)),
        sig_model("assertEqualMsg"@, 3usize, 3usize, arrow_model(seq![TypeModel::Atom, TypeModel::Atom, TypeModel::Atom], TypeModel::Unit)),
        sig_model("assertAlphaEqual"@, 2usize, 2usize, arrow_model(seq![TypeModel::Atom, TypeModel::Atom], TypeModel::Unit)),
        sig_model("assertAlphaEqualMsg"@, 3usize, 3usize, arrow_model(seq![TypeModel::Atom, TypeModel::Atom, TypeModel::Atom], TypeModel::Unit)),
    ]
}

/// Signatures of the registry, part 14.
pub open spec fn signature_part13() -> Seq<SigModel> {
    seq![
        sig_model("assertEqualToResult"@, 2usize, 2usize, arrow_model(seq![TypeModel::Atom, TypeModel::Atom], TypeModel::Unit)),
        sig_model("assertEqualToResultMsg"@, 3usize, 3usize, arrow_model(seq![TypeModel::Atom, TypeModel::Atom, TypeModel::Atom], TypeModel::Unit)),
        sig_model("assertAlphaEqualToResult"@, 2usize, 2usize, arrow_model(seq![TypeModel::Atom, TypeModel::Atom], TypeModel::Unit)),
        sig_model("assertAlphaEqualToResultMsg"@, 3usize, 3usize, arrow_model(seq![TypeModel::Atom, TypeModel::Atom, TypeModel::Atom], TypeModel::Unit)),
    ]
}

/// All signatures of the registry, in registry order.
pub open spec fn signature_table() -> Seq<SigModel> {
    signature_part0() + signature_part1() + signature_part2() + signature_part3() + signature_part4() + signature_part5() + signature_part6() + signature_part7() + signature_part8() + signature_part9() + signature_part10() + signature_part11() + signature_part12() + signature_part13()
}

fn push_part0(v: &mut Vec<BuiltinSignature>)
    ensures
        sigs_view(final(v)@) == sigs_view(old(v)@) + signature_part0(),
{
    let ghost start = v@;
    v.push(BuiltinSignature { name: "+", min_arity: 2, max_arity: 2, type_sig: arrow(args2(TypeExpr::Number, TypeExpr::Number), TypeExpr::Number) });
    v.push(BuiltinSignature { name: "-", min_arity: 2, max_arity: 2, type_sig: arrow(args2(TypeExpr::Number, TypeExpr::Number), TypeExpr::Number) });
    v.push(BuiltinSignature { name: "*", min_arity: 2, max_arity: 2, type_sig: arrow(args2(TypeExpr::Number, TypeExpr::Number), TypeExpr::Number) });
    v.push(BuiltinSignature { name: "/", min_arity: 2, max_arity: 2, type_sig: arrow(args2(TypeExpr::Number, TypeExpr::Number), TypeExpr::Number) });
    v.push(BuiltinSignature { name: "%", min_arity: 2, max_arity: 2, type_sig: arrow(args2(TypeExpr::Number, TypeExpr::Number), TypeExpr::Number) });
    v.push(BuiltinSignature { name: "min", min_arity: 2, max_arity: 2, type_sig: arrow(args2(TypeExpr::Number, TypeExpr::Number), TypeExpr::Number) });
    v.push(BuiltinSignature { name: "max", min_arity: 2, max_arity: 2, type_sig: arrow(args2(TypeExpr::Number, TypeExpr::Number), TypeExpr::Number) });
    v.push(BuiltinSignature { name: "/safe", min_arity: 2, max_arity: 2, type_sig: arrow(args2(TypeExpr::Number, TypeExpr::Number), TypeExpr::Number) });
    v.push(BuiltinSignature { name: "clamp", min_arity: 3, max_arity: 3, type_sig: arrow(args3(TypeExpr::Number, TypeExpr::Number, TypeExpr::Number), TypeExpr::Number) });
    v.push(BuiltinSignature { name: "floor-div", min_arity: 2, max_arity: 2, type_sig: arrow(args2(TypeExpr::Number, TypeExpr::Number), TypeExpr::Number) });
    v.push(BuiltinSignature { name: "abs", min_arity: 1, max_arity: 1, type_sig: arrow(args1(TypeExpr::Number), TypeExpr::Number) });
    assert(sigs_view(v@) =~= sigs_view(start) + signature_part0());
}

fn push_part1(v: &mut Vec<BuiltinSignature>)
    ensures
        sigs_view(final(v)@) == sigs_view(old(v)@) + signature_part1(),
{
    let ghost start = v@;
    v.push(BuiltinSignature { name: "abs-math", min_arity: 1, max_arity: 1, type_sig: arrow(args1(TypeExpr::Number), TypeExpr::Number) });
    v.push(BuiltinSignature { name: "floor", min_arity: 1, max_arity: 1, type_sig: arrow(args1(TypeExpr::Number), TypeExpr::Number) });
    v.push(BuiltinSignature { name: "floor-math", min_arity: 1, max_arity: 1, type_sig: arrow(args1(TypeExpr::Number), TypeExpr::Number) });
    v.push(BuiltinSignature { name: "ceil", min_arity: 1, max_arity: 1, type_sig: arrow(args1(TypeExpr::Number), TypeExpr::Number) });
    v.push(BuiltinSignature { name: "ceil-math", min_arity: 1, max_arity: 1, type_sig: arrow(args1(TypeExpr::Number), TypeExpr::Number) });
    v.push(BuiltinSignature { name: "round", min_arity: 1, max_arity: 1, type_sig: arrow(args1(TypeExpr::Number), TypeExpr::Number) });
    v.push(BuiltinSignature { name: "round-math", min_arity: 1, max_arity: 1, type_sig: arrow(args1(TypeExpr::Number), TypeExpr::Number) });
    v.push(BuiltinSignature { name: "sqrt", min_arity: 1, max_arity: 1, type_sig: arrow(args1(TypeExpr::Number), TypeExpr::Number) });
    v.push(BuiltinSignature { name: "sqrt-math", min_arity: 1, max_arity: 1, type_sig: arrow(args1(TypeExpr::Number), TypeExpr::Number) });
    v.push(BuiltinSignature { name: "trunc", min_arity: 1, max_arity: 1, type_sig: arrow(args1(TypeExpr::Number), TypeExpr::Number) });
    v.push(BuiltinSignature { name: "trunc-math", min_arity: 1, max_arity: 1, type_sig: arrow(args1(TypeExpr::Number), TypeExpr::Number) });
    assert(sigs_view(v@) =~= sigs_view(start) + signature_part1());
}

fn push_part2(v: &mut Vec<BuiltinSignature>)
    ensures
        sigs_view(final(v)@) == sigs_view(old(v)@) + signature_part2(),
{
    let ghost start = v@;
    v.push(BuiltinSignature { name: "pow", min_arity: 2, max_arity: 2, type_sig: arrow(args2(TypeExpr::Number, TypeExpr::Number), TypeExpr::Number) });
    v.push(BuiltinSignature { name: "pow-math", min_arity: 2, max_arity: 2, type_sig: arrow(args2(TypeExpr::Number, TypeExpr::Number), TypeExpr::Number) });
    v.push(BuiltinSignature { name: "log", min_arity: 2, max_arity: 2, type_sig: arrow(args2(TypeExpr::Number, TypeExpr::Number), TypeExpr::Number) });
    v.push(BuiltinSignature { name: "log-math", min_arity: 2, max_arity: 2, type_sig: arrow(args2(TypeExpr::Number, TypeExpr::Number), TypeExpr::Number) });
    v.push(BuiltinSignature { name: "sin-math", min_arity: 1, max_arity: 1, type_sig: arrow(args1(TypeExpr::Number), TypeExpr::Number) });
    v.push(BuiltinSignature { name: "cos-math", min_arity: 1, max_arity: 1, type_sig: arrow(args1(TypeExpr::Number), TypeExpr::Number) });
    v.push(BuiltinSignature { name: "tan-math", min_arity: 1, max_arity: 1, type_sig: arrow(args1(TypeExpr::Number), TypeExpr::Number) });
    v.push(BuiltinSignature { name: "asin-math", min_arity: 1, max_arity: 1, type_sig: arrow(args1(TypeExpr::Number), TypeExpr::Number) });
    v.push(BuiltinSignature { name: "acos-math", min_arity: 1, max_arity: 1, type_sig: arrow(args1(TypeExpr::Number), TypeExpr::Number) });
    v.push(BuiltinSignature { name: "atan-math", min_arity: 1, max_arity: 1, type_sig: arrow(args1(TypeExpr::Number), TypeExpr::Number) });
    v.push(BuiltinSignature { name: "isnan-math", min_arity: 1, max_arity: 1, type_sig: arrow(args1(TypeExpr::Number), TypeExpr::Bool) });
    assert(sigs_view(v@) =~= sigs_view(start) + signature_part2());
}

fn push_part3(v: &mut Vec<BuiltinSignature>)
    ensures
        sigs_view(final(v)@) == sigs_view(old(v)@) + signature_part3(),
{
    let ghost start = v@;
    v.push(BuiltinSignature { name: "isinf-math", min_arity: 1, max_arity: 1, type_sig: arrow(args1(TypeExpr::Number), TypeExpr::Bool) });
    v.push(BuiltinSignature { name: "<", min_arity: 2, max_arity: 2, type_sig: arrow(args2(TypeExpr::Number, TypeExpr::Number), TypeExpr::Bool) });
    v.push(BuiltinSignature { name: "<=", min_arity: 2, max_arity: 2, type_sig: arrow(args2(TypeExpr::Number, TypeExpr::Number), TypeExpr::Bool) });
    v.push(BuiltinSignature { name: ">", min_arity: 2, max_arity: 2, type_sig: arrow(args2(TypeExpr::Number, TypeExpr::Number), TypeExpr::Bool) });
    v.push(BuiltinSignature { name: ">=", min_arity: 2, max_arity: 2, type_sig: arrow(args2(TypeExpr::Number, TypeExpr::Number), TypeExpr::Bool) });
    v.push(BuiltinSignature { name: "==", min_arity: 2, max_arity: 2, type_sig: arrow(args2(TypeExpr::Var("a"), TypeExpr::Var("a")), TypeExpr::Bool) });
    v.push(BuiltinSignature { name: "!=", min_arity: 2, max_arity: 2, type_sig: arrow(args2(TypeExpr::Var("a"), TypeExpr::Var("a")), TypeExpr::Bool) });
    v.push(BuiltinSignature { name: "and", min_arity: 2, max_arity: 2, type_sig: arrow(args2(TypeExpr::Bool, TypeExpr::Bool), TypeExpr::Bool) });
    v.push(BuiltinSignature { name: "or", min_arity: 2, max_arity: 2, type_sig: arrow(args2(TypeExpr::Bool, TypeExpr::Bool), TypeExpr::Bool) });
    v.push(BuiltinSignature { name: "not", min_arity: 1, max_arity: 1, type_sig: arrow(args1(TypeExpr::Bool), TypeExpr::Bool) });
    v.push(BuiltinSignature { name: "xor", min_arity: 2, max_arity: 2, type_sig: arrow(args2(TypeExpr::Bool, TypeExpr::Bool), TypeExpr::Bool) });
    assert(sigs_view(v@) =~= sigs_view(start) + signature_part3());
}

fn push_part4(v: &mut Vec<BuiltinSignature>)
    ensures
        sigs_view(final(v)@) == sigs_view(old(v)@) + signature_part4(),
{
    let ghost start = v@;
    v.push(BuiltinSignature { name: "if", min_arity: 3, max_arity: 3, type_sig: arrow(args3(TypeExpr::Bool, TypeExpr::Atom, TypeExpr::Atom), TypeExpr::Var("t")) });
    v.push(BuiltinSignature { name: "case", min_arity: 2, max_arity: usize::MAX, type_sig: arrow(args2(TypeExpr::Atom, TypeExpr::Expression), TypeExpr::Undefined) });
    v.push(BuiltinSignature { name: "switch", min_arity: 2, max_arity: usize::MAX, type_sig: arrow(args2(TypeExpr::Undefined, TypeExpr::Expression), TypeExpr::Undefined) });
    v.push(BuiltinSignature { name: "if-equal", min_arity: 4, max_arity: 4, type_sig: arrow(args4(TypeExpr::Atom, TypeExpr::Atom, TypeExpr::Atom, TypeExpr::Atom), TypeExpr::Undefined) });
    v.push(BuiltinSignature { name: "if-reducible", min_arity: 3, max_arity: 3, type_sig: arrow(args3(TypeExpr::Atom, TypeExpr::Atom, TypeExpr::Atom), TypeExpr::Undefined) });
    v.push(BuiltinSignature { name: "let", min_arity: 3, max_arity: 3, type_sig: arrow(args3(TypeExpr::Atom, TypeExpr::Undefined, TypeExpr::Atom), TypeExpr::Undefined) });
    v.push(BuiltinSignature { name: "let*", min_arity: 2, max_arity: 2, type_sig: arrow(args2(TypeExpr::Bindings, TypeExpr::Var("a")), TypeExpr::Var("a")) });
    v.push(BuiltinSignature { name: "unify", min_arity: 4, max_arity: 4, type_sig: arrow(args4(TypeExpr::Atom, TypeExpr::Atom, TypeExpr::Atom, TypeExpr::Atom), TypeExpr::Undefined) });
    v.push(BuiltinSignature { name: "function", min_arity: 1, max_arity: 1, type_sig: arrow(args1(TypeExpr::Atom), TypeExpr::Atom) });
    v.push(BuiltinSignature { name: "return", min_arity: 1, max_arity: 1, type_sig: arrow(args1(TypeExpr::Var("t")), TypeExpr::Var("t")) });
    v.push(BuiltinSignature { name: "chain", min_arity: 3, max_arity: 3, type_sig: arrow(args3(TypeExpr::Atom, TypeExpr::Variable, TypeExpr::Atom), TypeExpr::Undefined) });
    assert(sigs_view(v@) =~= sigs_view(start) + signature_part4());
}

fn push_part5(v: &mut Vec<BuiltinSignature>)
    ensures
        sigs_view(final(v)@) == sigs_view(old(v)@) + signature_part5(),
{
    let ghost start = v@;
    v.push(BuiltinSignature { name: "=", min_arity: 2, max_arity: 2, type_sig: arrow(args2(TypeExpr::Var("t"), TypeExpr::Var("t")), TypeExpr::Undefined) });
    v.push(BuiltinSignature { name: ":", min_arity: 2, max_arity: 2, type_sig: arrow(args2(TypeExpr::Var("a"), TypeExpr::Type), TypeExpr::Unit) });
    v.push(BuiltinSignature { name: "match", min_arity: 3, max_arity: 4, type_sig: arrow(args3(TypeExpr::Space, TypeExpr::Atom, TypeExpr::Atom), TypeExpr::Undefined) });
    v.push(BuiltinSignature { name: "match-or", min_arity: 4, max_arity: 4, type_sig: arrow(args4(TypeExpr::Space, TypeExpr::Atom, TypeExpr::Atom, TypeExpr::Atom), TypeExpr::Undefined) });
    v.push(BuiltinSignature { name: "new-space", min_arity: 0, max_arity: 0, type_sig: arrow(args0(), TypeExpr::Space) });
    v.push(BuiltinSignature { name: "add-atom", min_arity: 2, max_arity: 2, type_sig: arrow(args2(TypeExpr::Space, TypeExpr::Atom), TypeExpr::Unit) });
    v.push(BuiltinSignature { name: "remove-atom", min_arity: 2, max_arity: 2, type_sig: arrow(args2(TypeExpr::Space, TypeExpr::Atom), TypeExpr::Unit) });
    v.push(BuiltinSignature { name: "get-atoms", min_arity: 1, max_arity: 1, type_sig: arrow(args1(TypeExpr::Space), TypeExpr::Atom) });
    v.push(BuiltinSignature { name: "collapse", min_arity: 1, max_arity: 1, type_sig: arrow(args1(TypeExpr::Atom), TypeExpr::Atom) });
    v.push(BuiltinSignature { name: "collapse-bind", min_arity: 1, max_arity: 1, type_sig: arrow(args1(TypeExpr::Atom), TypeExpr::Expression) });
    v.push(BuiltinSignature { name: "car-atom", min_arity: 1, max_arity: 1, type_sig: arrow(args1(TypeExpr::Expression), TypeExpr::Undefined) });
    assert(sigs_view(v@) =~= sigs_view(start) + signature_part5());
}

fn push_part6(v: &mut Vec<BuiltinSignature>)
    ensures
        sigs_view(final(v)@) == sigs_view(old(v)@) + signature_part6(),
{
    let ghost start = v@;
    v.push(BuiltinSignature { name: "cdr-atom", min_arity: 1, max_arity: 1, type_sig: arrow(args1(TypeExpr::Expression), TypeExpr::Expression) });
    v.push(BuiltinSignature { name: "cons-atom", min_arity: 2, max_arity: 2, type_sig: arrow(args2(TypeExpr::Atom, TypeExpr::Expression), TypeExpr::Atom) });
    v.push(BuiltinSignature { name: "decons-atom", min_arity: 1, max_arity: 1, type_sig: arrow(args1(TypeExpr::Expression), TypeExpr::Atom) });
    v.push(BuiltinSignature { name: "size-atom", min_arity: 1, max_arity: 1, type_sig: arrow(args1(TypeExpr::Expression), TypeExpr::Number) });
    v.push(BuiltinSignature { name: "max-atom", min_arity: 1, max_arity: 1, type_sig: arrow(args1(TypeExpr::Expression), TypeExpr::Number) });
    v.push(BuiltinSignature { name: "min-atom", min_arity: 1, max_arity: 1, type_sig: arrow(args1(TypeExpr::Expression), TypeExpr::Number) });
    v.push(BuiltinSignature { name: "index-atom", min_arity: 2, max_arity: 2, type_sig: arrow(args2(TypeExpr::Expression, TypeExpr::Number), TypeExpr::Atom) });
    v.push(BuiltinSignature { name: "empty", min_arity: 0, max_arity: 0, type_sig: arrow(args0(), TypeExpr::Undefined) });
    v.push(BuiltinSignature { name: "tuple-concat", min_arity: 2, max_arity: 2, type_sig: arrow(args2(TypeExpr::Expression, TypeExpr::Expression), TypeExpr::Expression) });
    v.push(BuiltinSignature { name: "tuple-count", min_arity: 1, max_arity: 1, type_sig: arrow(args1(TypeExpr::Expression), TypeExpr::Number) });
    v.push(BuiltinSignature { name: "without", min_arity: 2, max_arity: 2, type_sig: arrow(args2(TypeExpr::Expression, TypeExpr::Atom), TypeExpr::Expression) });
    assert(sigs_view(v@) =~= sigs_view(start) + signature_part6());
}

fn push_part7(v: &mut Vec<BuiltinSignature>)
    ensures
        sigs_view(final(v)@) == sigs_view(old(v)@) + signature_part7(),
{
    let ghost start = v@;
    v.push(BuiltinSignature { name: "element-of", min_arity: 2, max_arity: 2, type_sig: arrow(args2(TypeExpr::Atom, TypeExpr::Expression), TypeExpr::Bool) });
    v.push(BuiltinSignature { name: "range", min_arity: 2, max_arity: 2, type_sig: arrow(args2(TypeExpr::Number, TypeExpr::Number), TypeExpr::Expression) });
    v.push(BuiltinSignature { name: "reverse-atom", min_arity: 1, max_arity: 1, type_sig: arrow(args1(TypeExpr::Expression), TypeExpr::Expression) });
    v.push(BuiltinSignature { name: "flatten-atom", min_arity: 1, max_arity: 1, type_sig: arrow(args1(TypeExpr::Expression), TypeExpr::Expression) });
    v.push(BuiltinSignature { name: "zip-atom", min_arity: 2, max_arity: 2, type_sig: arrow(args2(TypeExpr::Expression, TypeExpr::Expression), TypeExpr::Expression) });
    v.push(BuiltinSignature { name: "take-atom", min_arity: 2, max_arity: 2, type_sig: arrow(args2(TypeExpr::Expression, TypeExpr::Number), TypeExpr::Expression) });
    v.push(BuiltinSignature { name: "drop-atom", min_arity: 2, max_arity: 2, type_sig: arrow(args2(TypeExpr::Expression, TypeExpr::Number), TypeExpr::Expression) });
    v.push(BuiltinSignature { name: "map-atom", min_arity: 3, max_arity: 3, type_sig: arrow(args3(TypeExpr::Expression, TypeExpr::Variable, TypeExpr::Atom), TypeExpr::Expression) });
    v.push(BuiltinSignature { name: "filter-atom", min_arity: 3, max_arity: 3, type_sig: arrow(args3(TypeExpr::Expression, TypeExpr::Variable, TypeExpr::Atom), TypeExpr::Expression) });
    v.push(BuiltinSignature { name: "foldl-atom", min_arity: 5, max_arity: 5, type_sig: arrow(args5(TypeExpr::Expression, TypeExpr::Atom, TypeExpr::Variable, TypeExpr::Variable, TypeExpr::Atom), TypeExpr::Undefined) });
    v.push(BuiltinSignature { name: "sort-tuple", min_arity: 2, max_arity: 2, type_sig: arrow(args2(TypeExpr::Expression, TypeExpr::Atom), TypeExpr::Expression) });
    assert(sigs_view(v@) =~= sigs_view(start) + signature_part7());
}

fn push_part8(v: &mut Vec<BuiltinSignature>)
    ensures
        sigs_view(final(v)@) == sigs_view(old(v)@) + signature_part8(),
{
    let ghost start = v@;
    v.push(BuiltinSignature { name: "best-candidate", min_arity: 2, max_arity: 2, type_sig: arrow(args2(TypeExpr::Expression, TypeExpr::Atom), TypeExpr::Atom) });
    v.push(BuiltinSignature { name: "unique-atom", min_arity: 1, max_arity: 1, type_sig: arrow(args1(TypeExpr::Expression), TypeExpr::Atom) });
    v.push(BuiltinSignature { name: "union-atom", min_arity: 2, max_arity: 2, type_sig: arrow(args2(TypeExpr::Expression, TypeExpr::Expression), TypeExpr::Atom) });
    v.push(BuiltinSignature { name: "intersection-atom", min_arity: 2, max_arity: 2, type_sig: arrow(args2(TypeExpr::Expression, TypeExpr::Expression), TypeExpr::Atom) });
    v.push(BuiltinSignature { name: "subtraction-atom", min_arity: 2, max_arity: 2, type_sig: arrow(args2(TypeExpr::Expression, TypeExpr::Expression), TypeExpr::Atom) });
    v.push(BuiltinSignature { name: "superpose", min_arity: 1, max_arity: 1, type_sig: arrow(args1(TypeExpr::Expression), TypeExpr::Undefined) });
    v.push(BuiltinSignature { name: "amb", min_arity: 1, max_arity: usize::MAX, type_sig: arrow(args1(TypeExpr::Atom), TypeExpr::Undefined) });
    v.push(BuiltinSignature { name: "guard", min_arity: 2, max_arity: 2, type_sig: arrow(args2(TypeExpr::Bool, TypeExpr::Atom), TypeExpr::Atom) });
    v.push(BuiltinSignature { name: "commit", min_arity: 1, max_arity: 1, type_sig: arrow(args1(TypeExpr::Atom), TypeExpr::Atom) });
    v.push(BuiltinSignature { name: "backtrack", min_arity: 0, max_arity: 0, type_sig: arrow(args0(), TypeExpr::Undefined) });
    v.push(BuiltinSignature { name: "quote", min_arity: 1, max_arity: 1, type_sig: arrow(args1(TypeExpr::Atom), TypeExpr::Atom) });
    assert(sigs_view(v@) =~= sigs_view(start) + signature_part8());
}

fn push_part9(v: &mut Vec<BuiltinSignature>)
    ensures
        sigs_view(final(v)@) == sigs_view(old(v)@) + signature_part9(),
{
    let ghost start = v@;
    v.push(BuiltinSignature { name: "unquote", min_arity: 1, max_arity: 1, type_sig: arrow(args1(TypeExpr::Undefined), TypeExpr::Undefined) });
    v.push(BuiltinSignature { name: "eval", min_arity: 1, max_arity: 1, type_sig: arrow(args1(TypeExpr::Atom), TypeExpr::Atom) });
    v.push(BuiltinSignature { name: "!", min_arity: 1, max_arity: 1, type_sig: arrow(args1(TypeExpr::Atom), TypeExpr::Atom) });
    v.push(BuiltinSignature { name: "sealed", min_arity: 2, max_arity: 2, type_sig: arrow(args2(TypeExpr::Expression, TypeExpr::Atom), TypeExpr::Atom) });
    v.push(BuiltinSignature { name: "atom-subst", min_arity: 3, max_arity: 3, type_sig: arrow(args3(TypeExpr::Atom, TypeExpr::Variable, TypeExpr::Atom), TypeExpr::Atom) });
    v.push(BuiltinSignature { name: "nop", min_arity: 0, max_arity: usize::MAX, type_sig: arrow(args1(TypeExpr::Undefined), TypeExpr::Undefined) });
    v.push(BuiltinSignature { name: "get-type", min_arity: 1, max_arity: 1, type_sig: arrow(args1(TypeExpr::Var("a")), TypeExpr::Type) });
    v.push(BuiltinSignature { name: "check-type", min_arity: 2, max_arity: 2, type_sig: arrow(args2(TypeExpr::Var("a"), TypeExpr::Type), TypeExpr::Bool) });
    v.push(BuiltinSignature { name: "get-metatype", min_arity: 1, max_arity: 1, type_sig: arrow(args1(TypeExpr::Var("a")), TypeExpr::Type) });
    v.push(BuiltinSignature { name: "validate-atom", min_arity: 1, max_arity: 1, type_sig: arrow(args1(TypeExpr::Atom), TypeExpr::Bool) });
    v.push(BuiltinSignature { name: "get-type-space", min_arity: 2, max_arity: 2, type_sig: arrow(args2(TypeExpr::Space, TypeExpr::Atom), TypeExpr::Type) });
    assert(sigs_view(v@) =~= sigs_view(start) + signature_part9());
}

fn push_part10(v: &mut Vec<BuiltinSignature>)
    ensures
        sigs_view(final(v)@) == sigs_view(old(v)@) + signature_part10(),
{
    let ghost start = v@;
    v.push(BuiltinSignature { name: "is-function", min_arity: 1, max_arity: 1, type_sig: arrow(args1(TypeExpr::Type), TypeExpr::Bool) });
    v.push(BuiltinSignature { name: "type-cast", min_arity: 3, max_arity: 3, type_sig: arrow(args3(TypeExpr::Var("a"), TypeExpr::Type, TypeExpr::Atom), TypeExpr::Var("a")) });
    v.push(BuiltinSignature { name: "metta", min_arity: 3, max_arity: 3, type_sig: arrow(args3(TypeExpr::Atom, TypeExpr::Type, TypeExpr::Atom), TypeExpr::Atom) });
    v.push(BuiltinSignature { name: "match-type-or", min_arity: 3, max_arity: 3, type_sig: arrow(args3(TypeExpr::Bool, TypeExpr::Atom, TypeExpr::Atom), TypeExpr::Bool) });
    v.push(BuiltinSignature { name: "first-from-pair", min_arity: 1, max_arity: 1, type_sig: arrow(args1(TypeExpr::Atom), TypeExpr::Atom) });
    v.push(BuiltinSignature { name: ":<", min_arity: 2, max_arity: 2, type_sig: arrow(args2(TypeExpr::Atom, TypeExpr::Atom), TypeExpr::Atom) });
    v.push(BuiltinSignature { name: "Error", min_arity: 2, max_arity: 2, type_sig: arrow(args2(TypeExpr::Atom, TypeExpr::Atom), TypeExpr::Error) });
    v.push(BuiltinSignature { name: "error", min_arity: 2, max_arity: 2, type_sig: arrow(args2(TypeExpr::Atom, TypeExpr::Atom), TypeExpr::Error) });
    v.push(BuiltinSignature { name: "is-error", min_arity: 1, max_arity: 1, type_sig: arrow(args1(TypeExpr::Var("a")), TypeExpr::Bool) });
    v.push(BuiltinSignature { name: "catch", min_arity: 2, max_arity: 2, type_sig: arrow(args2(TypeExpr::Var("a"), TypeExpr::Var("a")), TypeExpr::Var("a")) });
    v.push(BuiltinSignature { name: "new-state", min_arity: 1, max_arity: 1, type_sig: arrow(args1(TypeExpr::Var("t")), TypeExpr::StateMonad(Box::new(TypeExpr::Var("t")))) });
    assert(sigs_view(v@) =~= sigs_view(start) + signature_part10());
}

fn push_part11(v: &mut Vec<BuiltinSignature>)
    ensures
        sigs_view(final(v)@) == sigs_view(old(v)@) + signature_part11(),
{
    let ghost start = v@;
    v.push(BuiltinSignature { name: "get-state", min_arity: 1, max_arity: 1, type_sig: arrow(args1(TypeExpr::StateMonad(Box::new(TypeExpr::Var("t")))), TypeExpr::Var("t")) });
    v.push(BuiltinSignature { name: "change-state!", min_arity: 2, max_arity: 2, type_sig: arrow(args2(TypeExpr::StateMonad(Box::new(TypeExpr::Var("t"))), TypeExpr::Var("t")), TypeExpr::StateMonad(Box::new(TypeExpr::Var("t")))) });
    v.push(BuiltinSignature { name: "println!", min_arity: 1, max_arity: 1, type_sig: arrow(args1(TypeExpr::Undefined), TypeExpr::IO(Box::new(TypeExpr::Unit))) });
    v.push(BuiltinSignature { name: "trace!", min_arity: 2, max_arity: 2, type_sig: arrow(args2(TypeExpr::Undefined, TypeExpr::Atom), TypeExpr::IO(Box::new(TypeExpr::Undefined))) });
    v.push(BuiltinSignature { name: "repr", min_arity: 1, max_arity: 1, type_sig: arrow(args1(TypeExpr::Var("a")), TypeExpr::String) });
    v.push(BuiltinSignature { name: "format-args", min_arity: 1, max_arity: usize::MAX, type_sig: arrow(args2(TypeExpr::String, TypeExpr::Expression), TypeExpr::String) });
    v.push(BuiltinSignature { name: "=alpha", min_arity: 2, max_arity: 2, type_sig: arrow(args2(TypeExpr::Atom, TypeExpr::Atom), TypeExpr::Bool) });
    v.push(BuiltinSignature { name: "include", min_arity: 1, max_arity: 2, type_sig: arrow(args1(TypeExpr::Atom), TypeExpr::Unit) });
    v.push(BuiltinSignature { name: "import!", min_arity: 2, max_arity: 2, type_sig: arrow(args2(TypeExpr::Space, TypeExpr::Atom), TypeExpr::Unit) });
    v.push(BuiltinSignature { name: "bind!", min_arity: 2, max_arity: 2, type_sig: arrow(args2(TypeExpr::Atom, TypeExpr::Var("a")), TypeExpr::Unit) });
    v.push(BuiltinSignature { name: "mod-space!", min_arity: 1, max_arity: 1, type_sig: arrow(args1(TypeExpr::Atom), TypeExpr::Space) });
    assert(sigs_view(v@) =~= sigs_view(start) + signature_part11());
}

fn push_part12(v: &mut Vec<BuiltinSignature>)
    ensures
        sigs_view(final(v)@) == sigs_view(old(v)@) + signature_part12(),
{
    let ghost start = v@;
    v.push(BuiltinSignature { name: "print-mods!", min_arity: 0, max_arity: 0, type_sig: arrow(args0(), TypeExpr::Unit) });
    v.push(BuiltinSignature { name: "pragma!", min_arity: 1, max_arity: usize::MAX, type_sig: arrow(args1(TypeExpr::Undefined), TypeExpr::Unit) });
    v.push(BuiltinSignature { name: "new-memo", min_arity: 0, max_arity: 0, type_sig: arrow(args0(), TypeExpr::Atom) });
    v.push(BuiltinSignature { name: "memo", min_arity: 2, max_arity: 2, type_sig: arrow(args2(TypeExpr::Atom, TypeExpr::Atom), TypeExpr::Expression) });
    v.push(BuiltinSignature { name: "memo-first", min_arity: 2, max_arity: 2, type_sig: arrow(args2(TypeExpr::Atom, TypeExpr::Atom), TypeExpr::Atom) });
    v.push(BuiltinSignature { name: "clear-memo!", min_arity: 1, max_arity: 1, type_sig: arrow(args1(TypeExpr::Atom), TypeExpr::Unit) });
    v.push(BuiltinSignature { name: "memo-stats", min_arity: 1, max_arity: 1, type_sig: arrow(args1(TypeExpr::Atom), TypeExpr::Expression) });
    v.push(BuiltinSignature { name: "assertEqual", min_arity: 2, max_arity: 2, type_sig: arrow(args2(TypeExpr::Atom, TypeExpr::Atom), TypeExpr::Unit) });
    v.push(BuiltinSignature { name: "assertEqualMsg", min_arity: 3, max_arity: 3, type_sig: arrow(args3(TypeExpr::Atom, TypeExpr::Atom, TypeExpr::Atom), TypeExpr::Unit) });
    v.push(BuiltinSignature { name: "assertAlphaEqual", min_arity: 2, max_arity: 2, type_sig: arrow(args2(TypeExpr::Atom, TypeExpr::Atom), TypeExpr::Unit) });
    v.push(BuiltinSignature { name: "assertAlphaEqualMsg", min_arity: 3, max_arity: 3, type_sig: arrow(args3(TypeExpr::Atom, TypeExpr::Atom, TypeExpr::Atom), TypeExpr::Unit) });
    assert(sigs_view(v@) =~= sigs_view(start) + signature_part12());
}

fn push_part13(v: &mut Vec<BuiltinSignature>)
    ensures
        sigs_view(final(v)@) == sigs_view(old(v)@) + signature_part13(),
{
    let ghost start = v@;
    v.push(BuiltinSignature { name: "assertEqualToResult", min_arity: 2, max_arity: 2, type_sig: arrow(args2(TypeExpr::Atom, TypeExpr::Atom), TypeExpr::Unit) });
    v.push(BuiltinSignature { name: "assertEqualToResultMsg", min_arity: 3, max_arity: 3, type_sig: arrow(args3(TypeExpr::Atom, TypeExpr::Atom, TypeExpr::Atom), TypeExpr::Unit) });
    v.push(BuiltinSignature { name: "assertAlphaEqualToResult", min_arity: 2, max_arity: 2, type_sig: arrow(args2(TypeExpr::Atom, TypeExpr::Atom), TypeExpr::Unit) });
    v.push(BuiltinSignature { name: "assertAlphaEqualToResultMsg", min_arity: 3, max_arity: 3, type_sig: arrow(args3(TypeExpr::Atom, TypeExpr::Atom, TypeExpr::Atom), TypeExpr::Unit) });
    assert(sigs_view(v@) =~= sigs_view(start) + signature_part13());
}

/// All built-in signatures, in registry order.
pub fn builtin_signatures() -> (r: Vec<BuiltinSignature>)
    ensures
        sigs_view(r@) == signature_table(),
{
    let mut v: Vec<BuiltinSignature> = Vec::new();
    push_part0(&mut v);
    push_part1(&mut v);
    push_part2(&mut v);
    push_part3(&mut v);
    push_part4(&mut v);
    push_part5(&mut v);
    push_part6(&mut v);
    push_part7(&mut v);
    push_part8(&mut v);
    push_part9(&mut v);
    push_part10(&mut v);
    push_part11(&mut v);
    push_part12(&mut v);
    push_part13(&mut v);
    assert(sigs_view(v@) =~= signature_table());
    v
}


/// Whether some signature of `table` carries the name `name`.
pub open spec fn has_name(table: Seq<SigModel>, name: Seq<char>) -> bool {
    exists|i: int| 0 <= i < table.len() && #[trigger] table[i].name == name
}

/// Index of the last signature of `table` named `name`, or -1.
pub open spec fn last_named(table: Seq<SigModel>, name: Seq<char>) -> int
    decreases table.len(),
{
    if table.len() == 0 {
        -1
    } else if table.last().name == name {
        table.len() - 1
    } else {
        last_named(table.drop_last(), name)
    }
}

/// The signature that the registry holds for `name`, if any.
pub open spec fn signature_of(name: Seq<char>) -> Option<SigModel> {
    let i = last_named(signature_table(), name);
    if i >= 0 {
        Some(signature_table()[i])
    } else {
        None
    }
}

/// `last_named` finds a signature exactly when one carries the name.
pub proof fn lemma_last_named(table: Seq<SigModel>, name: Seq<char>)
    ensures
        -1 <= last_named(table, name) < table.len(),
        last_named(table, name) >= 0 <==> has_name(table, name),
        last_named(table, name) >= 0 ==> table[last_named(table, name)].name == name,
    decreases table.len(),
{
    if table.len() > 0 {
        lemma_last_named(table.drop_last(), name);
        if table.last().name != name {
            if has_name(table, name) {
                let i = choose|i: int| 0 <= i < table.len() && #[trigger] table[i].name == name;
                assert(table.drop_last()[i] == table[i]);
            }
            if has_name(table.drop_last(), name) {
                let i = choose|i: int| 0 <= i < table.drop_last().len() && #[trigger] table.drop_last()[i].name == name;
                assert(table[i] == table.drop_last()[i]);
            }
        }
    }
}

/// Every name that the registry lists is found by a lookup of that name.
pub proof fn lemma_listed_names_resolve(i: int)
    requires
        0 <= i < signature_table().len(),
    ensures
        signature_of(signature_table()[i].name) is Some,
        signature_of(signature_table()[i].name)->0.name == signature_table()[i].name,
{
    lemma_last_named(signature_table(), signature_table()[i].name);
}

/// Part `k` of the registry.
pub open spec fn signature_part(k: int) -> Seq<SigModel> {
    if k == 0 {
        signature_part0()
    } else if k == 1 {
        signature_part1()
    } else if k == 2 {
        signature_part2()
    } else if k == 3 {
        signature_part3()
    } else if k == 4 {
        signature_part4()
    } else if k == 5 {
        signature_part5()
    } else if k == 6 {
        signature_part6()
    } else if k == 7 {
        signature_part7()
    } else if k == 8 {
        signature_part8()
    } else if k == 9 {
        signature_part9()
    } else if k == 10 {
        signature_part10()
    } else if k == 11 {
        signature_part11()
    } else if k == 12 {
        signature_part12()
    } else {
        signature_part13()
    }
}

/// The first `j + 1` parts of the registry.
pub open spec fn signature_prefix(j: nat) -> Seq<SigModel>
    decreases j,
{
    if j == 0 {
        signature_part(0)
    } else {
        signature_prefix((j - 1) as nat) + signature_part(j as int)
    }
}

/// The registry is its fourteen parts.
proof fn lemma_table_prefix()
    ensures
        signature_table() == signature_prefix(13),
{
    reveal_with_fuel(signature_prefix, 14);
    assert(signature_table() =~= signature_prefix(13));
}

/// The last entry named `name` of a concatenation is in its second part
/// when that has one.
proof fn lemma_last_named_concat(a: Seq<SigModel>, b: Seq<SigModel>, name: Seq<char>)
    ensures
        last_named(a + b, name) == if last_named(b, name) >= 0 {
            a.len() + last_named(b, name)
        } else {
            last_named(a, name)
        },
    decreases b.len(),
{
    if b.len() == 0 {
        assert(a + b =~= a);
    } else {
        assert((a + b).drop_last() =~= a + b.drop_last());
        assert((a + b).last() == b.last());
        lemma_last_named_concat(a, b.drop_last(), name);
    }
}

/// The entry named `name` at `idx` of part `k` is the last one of the
/// first `k + 1` parts.
proof fn lemma_found_base(k: nat, name: Seq<char>, idx: int)
    requires
        k <= 13,
        0 <= idx,
        last_named(signature_part(k as int), name) == idx,
    ensures
        last_named(signature_prefix(k), name) == signature_prefix(k).len() - signature_part(k as int).len() + idx,
        signature_prefix(k)[signature_prefix(k).len() - signature_part(k as int).len() + idx] == signature_part(
            k as int,
        )[idx],
{
    lemma_last_named(signature_part(k as int), name);
    if k > 0 {
        lemma_last_named_concat(signature_prefix((k - 1) as nat), signature_part(k as int), name);
    }
}

/// A part without the name keeps the last entry named `name`.
proof fn lemma_found_step(j: nat, name: Seq<char>, g: int)
    requires
        1 <= j <= 13,
        0 <= g,
        last_named(signature_prefix((j - 1) as nat), name) == g,
        last_named(signature_part(j as int), name) == -1,
    ensures
        last_named(signature_prefix(j), name) == g,
        signature_prefix(j)[g] == signature_prefix((j - 1) as nat)[g],
{
    lemma_last_named(signature_prefix((j - 1) as nat), name);
    lemma_last_named_concat(signature_prefix((j - 1) as nat), signature_part(j as int), name);
}

/// The last entry named `name` is at `i` when no later one carries it.
proof fn lemma_last_named_at(t: Seq<SigModel>, name: Seq<char>, i: int)
    requires
        0 <= i < t.len(),
        t[i].name == name,
        forall|j: int| i < j < t.len() ==> #[trigger] t[j].name != name,
    ensures
        last_named(t, name) == i,
    decreases t.len(),
{
    if i < t.len() - 1 {
        assert(t.last().name != name);
        assert forall|j: int| i < j < t.drop_last().len() implies #[trigger] t.drop_last()[j].name != name by {
            assert(t.drop_last()[j] == t[j]);
        }
        assert(t.drop_last()[i] == t[i]);
        lemma_last_named_at(t.drop_last(), name, i);
    }
}

/// No entry carries `name`.
proof fn lemma_last_named_none(t: Seq<SigModel>, name: Seq<char>)
    requires
        forall|j: int| 0 <= j < t.len() ==> #[trigger] t[j].name != name,
    ensures
        last_named(t, name) == -1,
{
    lemma_last_named(t, name);
}

/// The registry holds `+` once, as entry 0 of part 1.
proof fn lemma_registered_add()
    ensures
        signature_of("+"@) == Some(signature_part0()[0]),
{
    broadcast use vstd::string::group_string_axioms;

    reveal_strlit("+");
    assert forall|j: int| 1 <= j < signature_part0().len() implies #[trigger] signature_part0()[j].name != "+"@ by {
        if j == 1 {
            reveal_strlit("-");
            assert("-"@[0] != "+"@[0]);
        } else if j == 2 {
            reveal_strlit("*");
            assert("*"@[0] != "+"@[0]);
        } else if j == 3 {
            reveal_strlit("/");
            assert("/"@[0] != "+"@[0]);
        } else if j == 4 {
            reveal_strlit("%");
            assert("%"@[0] != "+"@[0]);
        } else if j == 5 {
            reveal_strlit("min");
            assert("min"@.len() != "+"@.len());
        } else if j == 6 {
            reveal_strlit("max");
            assert("max"@.len() != "+"@.len());
        } else if j == 7 {
            reveal_strlit("/safe");
            assert("/safe"@.len() != "+"@.len());
        } else if j == 8 {
            reveal_strlit("clamp");
            assert("clamp"@.len() != "+"@.len());
        } else if j == 9 {
            reveal_strlit("floor-div");
            assert("floor-div"@.len() != "+"@.len());
        } else if j == 10 {
            reveal_strlit("abs");
            assert("abs"@.len() != "+"@.len());
        }
    }
    lemma_last_named_at(signature_part0(), "+"@, 0);
    assert forall|j: int| 0 <= j < signature_part1().len() implies #[trigger] signature_part1()[j].name != "+"@ by {
        if j == 0 {
            reveal_strlit("abs-math");
            assert("abs-math"@.len() != "+"@.len());
        } else if j == 1 {
            reveal_strlit("floor");
            assert("floor"@.len() != "+"@.len());
        } else if j == 2 {
            reveal_strlit("floor-math");
            assert("floor-math"@.len() != "+"@.len());
        } else if j == 3 {
            reveal_strlit("ceil");
            assert("ceil"@.len() != "+"@.len());
        } else if j == 4 {
            reveal_strlit("ceil-math");
            assert("ceil-math"@.len() != "+"@.len());
        } else if j == 5 {
            reveal_strlit("round");
            assert("round"@.len() != "+"@.len());
        } else if j == 6 {
            reveal_strlit("round-math");
            assert("round-math"@.len() != "+"@.len());
        } else if j == 7 {
            reveal_strlit("sqrt");
            assert("sqrt"@.len() != "+"@.len());
        } else if j == 8 {
            reveal_strlit("sqrt-math");
            assert("sqrt-math"@.len() != "+"@.len());
        } else if j == 9 {
            reveal_strlit("trunc");
            assert("trunc"@.len() != "+"@.len());
        } else if j == 10 {
            reveal_strlit("trunc-math");
            assert("trunc-math"@.len() != "+"@.len());
        }
    }
    lemma_last_named_none(signature_part1(), "+"@);
    assert forall|j: int| 0 <= j < signature_part2().len() implies #[trigger] signature_part2()[j].name != "+"@ by {
        if j == 0 {
            reveal_strlit("pow");
            assert("pow"@.len() != "+"@.len());
        } else if j == 1 {
            reveal_strlit("pow-math");
            assert("pow-math"@.len() != "+"@.len());
        } else if j == 2 {
            reveal_strlit("log");
            assert("log"@.len() != "+"@.len());
        } else if j == 3 {
            reveal_strlit("log-math");
            assert("log-math"@.len() != "+"@.len());
        } else if j == 4 {
            reveal_strlit("sin-math");
            assert("sin-math"@.len() != "+"@.len());
        } else if j == 5 {
            reveal_strlit("cos-math");
            assert("cos-math"@.len() != "+"@.len());
        } else if j == 6 {
            reveal_strlit("tan-math");
            assert("tan-math"@.len() != "+"@.len());
        } else if j == 7 {
            reveal_strlit("asin-math");
            assert("asin-math"@.len() != "+"@.len());
        } else if j == 8 {
            reveal_strlit("acos-math");
            assert("acos-math"@.len() != "+"@.len());
        } else if j == 9 {
            reveal_strlit("atan-math");
            assert("atan-math"@.len() != "+"@.len());
        } else if j == 10 {
            reveal_strlit("isnan-math");
            assert("isnan-math"@.len() != "+"@.len());
        }
    }
    lemma_last_named_none(signature_part2(), "+"@);
    assert forall|j: int| 0 <= j < signature_part3().len() implies #[trigger] signature_part3()[j].name != "+"@ by {
        if j == 0 {
            reveal_strlit("isinf-math");
            assert("isinf-math"@.len() != "+"@.len());
        } else if j == 1 {
            reveal_strlit("<");
            assert("<"@[0] != "+"@[0]);
        } else if j == 2 {
            reveal_strlit("<=");
            assert("<="@.len() != "+"@.len());
        } else if j == 3 {
            reveal_strlit(">");
            assert(">"@[0] != "+"@[0]);
        } else if j == 4 {
            reveal_strlit(">=");
            assert(">="@.len() != "+"@.len());
        } else if j == 5 {
            reveal_strlit("==");
            assert("=="@.len() != "+"@.len());
        } else if j == 6 {
            reveal_strlit("!=");
            assert("!="@.len() != "+"@.len());
        } else if j == 7 {
            reveal_strlit("and");
            assert("and"@.len() != "+"@.len());
        } else if j == 8 {
            reveal_strlit("or");
            assert("or"@.len() != "+"@.len());
        } else if j == 9 {
            reveal_strlit("not");
            assert("not"@.len() != "+"@.len());
        } else if j == 10 {
            reveal_strlit("xor");
            assert("xor"@.len() != "+"@.len());
        }
    }
    lemma_last_named_none(signature_part3(), "+"@);
    assert forall|j: int| 0 <= j < signature_part4().len() implies #[trigger] signature_part4()[j].name != "+"@ by {
        if j == 0 {
            reveal_strlit("if");
            assert("if"@.len() != "+"@.len());
        } else if j == 1 {
            reveal_strlit("case");
            assert("case"@.len() != "+"@.len());
        } else if j == 2 {
            reveal_strlit("switch");
            assert("switch"@.len() != "+"@.len());
        } else if j == 3 {
            reveal_strlit("if-equal");
            assert("if-equal"@.len() != "+"@.len());
        } else if j == 4 {
            reveal_strlit("if-reducible");
            assert("if-reducible"@.len() != "+"@.len());
        } else if j == 5 {
            reveal_strlit("let");
            assert("let"@.len() != "+"@.len());
        } else if j == 6 {
            reveal_strlit("let*");
            assert("let*"@.len() != "+"@.len());
        } else if j == 7 {
            reveal_strlit("unify");
            assert("unify"@.len() != "+"@.len());
        } else if j == 8 {
            reveal_strlit("function");
            assert("function"@.len() != "+"@.len());
        } else if j == 9 {
            reveal_strlit("return");
            assert("return"@.len() != "+"@.len());
        } else if j == 10 {
            reveal_strlit("chain");
            assert("chain"@.len() != "+"@.len());
        }
    }
    lemma_last_named_none(signature_part4(), "+"@);
    assert forall|j: int| 0 <= j < signature_part5().len() implies #[trigger] signature_part5()[j].name != "+"@ by {
        if j == 0 {
            reveal_strlit("=");
            assert("="@[0] != "+"@[0]);
        } else if j == 1 {
            reveal_strlit(":");
            assert(":"@[0] != "+"@[0]);
        } else if j == 2 {
            reveal_strlit("match");
            assert("match"@.len() != "+"@.len());
        } else if j == 3 {
            reveal_strlit("match-or");
            assert("match-or"@.len() != "+"@.len());
        } else if j == 4 {
            reveal_strlit("new-space");
            assert("new-space"@.len() != "+"@.len());
        } else if j == 5 {
            reveal_strlit("add-atom");
            assert("add-atom"@.len() != "+"@.len());
        } else if j == 6 {
            reveal_strlit("remove-atom");
            assert("remove-atom"@.len() != "+"@.len());
        } else if j == 7 {
            reveal_strlit("get-atoms");
            assert("get-atoms"@.len() != "+"@.len());
        } else if j == 8 {
            reveal_strlit("collapse");
            assert("collapse"@.len() != "+"@.len());
        } else if j == 9 {
            reveal_strlit("collapse-bind");
            assert("collapse-bind"@.len() != "+"@.len());
        } else if j == 10 {
            reveal_strlit("car-atom");
            assert("car-atom"@.len() != "+"@.len());
        }
    }
    lemma_last_named_none(signature_part5(), "+"@);
    assert forall|j: int| 0 <= j < signature_part6().len() implies #[trigger] signature_part6()[j].name != "+"@ by {
        if j == 0 {
            reveal_strlit("cdr-atom");
            assert("cdr-atom"@.len() != "+"@.len());
        } else if j == 1 {
            reveal_strlit("cons-atom");
            assert("cons-atom"@.len() != "+"@.len());
        } else if j == 2 {
            reveal_strlit("decons-atom");
            assert("decons-atom"@.len() != "+"@.len());
        } else if j == 3 {
            reveal_strlit("size-atom");
            assert("size-atom"@.len() != "+"@.len());
        } else if j == 4 {
            reveal_strlit("max-atom");
            assert("max-atom"@.len() != "+"@.len());
        } else if j == 5 {
            reveal_strlit("min-atom");
            assert("min-atom"@.len() != "+"@.len());
        } else if j == 6 {
            reveal_strlit("index-atom");
            assert("index-atom"@.len() != "+"@.len());
        } else if j == 7 {
            reveal_strlit("empty");
            assert("empty"@.len() != "+"@.len());
        } else if j == 8 {
            reveal_strlit("tuple-concat");
            assert("tuple-concat"@.len() != "+"@.len());
        } else if j == 9 {
            reveal_strlit("tuple-count");
            assert("tuple-count"@.len() != "+"@.len());
        } else if j == 10 {
            reveal_strlit("without");
            assert("without"@.len() != "+"@.len());
        }
    }
    lemma_last_named_none(signature_part6(), "+"@);
    assert forall|j: int| 0 <= j < signature_part7().len() implies #[trigger] signature_part7()[j].name != "+"@ by {
        if j == 0 {
            reveal_strlit("element-of");
            assert("element-of"@.len() != "+"@.len());
        } else if j == 1 {
            reveal_strlit("range");
            assert("range"@.len() != "+"@.len());
        } else if j == 2 {
            reveal_strlit("reverse-atom");
            assert("reverse-atom"@.len() != "+"@.len());
        } else if j == 3 {
            reveal_strlit("flatten-atom");
            assert("flatten-atom"@.len() != "+"@.len());
        } else if j == 4 {
            reveal_strlit("zip-atom");
            assert("zip-atom"@.len() != "+"@.len());
        } else if j == 5 {
            reveal_strlit("take-atom");
            assert("take-atom"@.len() != "+"@.len());
        } else if j == 6 {
            reveal_strlit("drop-atom");
            assert("drop-atom"@.len() != "+"@.len());
        } else if j == 7 {
            reveal_strlit("map-atom");
            assert("map-atom"@.len() != "+"@.len());
        } else if j == 8 {
            reveal_strlit("filter-atom");
            assert("filter-atom"@.len() != "+"@.len());
        } else if j == 9 {
            reveal_strlit("foldl-atom");
            assert("foldl-atom"@.len() != "+"@.len());
        } else if j == 10 {
            reveal_strlit("sort-tuple");
            assert("sort-tuple"@.len() != "+"@.len());
        }
    }
    lemma_last_named_none(signature_part7(), "+"@);
    assert forall|j: int| 0 <= j < signature_part8().len() implies #[trigger] signature_part8()[j].name != "+"@ by {
        if j == 0 {
            reveal_strlit("best-candidate");
            assert("best-candidate"@.len() != "+"@.len());
        } else if j == 1 {
            reveal_strlit("unique-atom");
            assert("unique-atom"@.len() != "+"@.len());
        } else if j == 2 {
            reveal_strlit("union-atom");
            assert("union-atom"@.len() != "+"@.len());
        } else if j == 3 {
            reveal_strlit("intersection-atom");
            assert("intersection-atom"@.len() != "+"@.len());
        } else if j == 4 {
            reveal_strlit("subtraction-atom");
            assert("subtraction-atom"@.len() != "+"@.len());
        } else if j == 5 {
            reveal_strlit("superpose");
            assert("superpose"@.len() != "+"@.len());
        } else if j == 6 {
            reveal_strlit("amb");
            assert("amb"@.len() != "+"@.len());
        } else if j == 7 {
            reveal_strlit("guard");
            assert("guard"@.len() != "+"@.len());
        } else if j == 8 {
            reveal_strlit("commit");
            assert("commit"@.len() != "+"@.len());
        } else if j == 9 {
            reveal_strlit("backtrack");
            assert("backtrack"@.len() != "+"@.len());
        } else if j == 10 {
            reveal_strlit("quote");
            assert("quote"@.len() != "+"@.len());
        }
    }
    lemma_last_named_none(signature_part8(), "+"@);
    assert forall|j: int| 0 <= j < signature_part9().len() implies #[trigger] signature_part9()[j].name != "+"@ by {
        if j == 0 {
            reveal_strlit("unquote");
            assert("unquote"@.len() != "+"@.len());
        } else if j == 1 {
            reveal_strlit("eval");
            assert("eval"@.len() != "+"@.len());
        } else if j == 2 {
            reveal_strlit("!");
            assert("!"@[0] != "+"@[0]);
        } else if j == 3 {
            reveal_strlit("sealed");
            assert("sealed"@.len() != "+"@.len());
        } else if j == 4 {
            reveal_strlit("atom-subst");
            assert("atom-subst"@.len() != "+"@.len());
        } else if j == 5 {
            reveal_strlit("nop");
            assert("nop"@.len() != "+"@.len());
        } else if j == 6 {
            reveal_strlit("get-type");
            assert("get-type"@.len() != "+"@.len());
        } else if j == 7 {
            reveal_strlit("check-type");
            assert("check-type"@.len() != "+"@.len());
        } else if j == 8 {
            reveal_strlit("get-metatype");
            assert("get-metatype"@.len() != "+"@.len());
        } else if j == 9 {
            reveal_strlit("validate-atom");
            assert("validate-atom"@.len() != "+"@.len());
        } else if j == 10 {
            reveal_strlit("get-type-space");
            assert("get-type-space"@.len() != "+"@.len());
        }
    }
    lemma_last_named_none(signature_part9(), "+"@);
    assert forall|j: int| 0 <= j < signature_part10().len() implies #[trigger] signature_part10()[j].name != "+"@ by {
        if j == 0 {
            reveal_strlit("is-function");
            assert("is-function"@.len() != "+"@.len());
        } else if j == 1 {
            reveal_strlit("type-cast");
            assert("type-cast"@.len() != "+"@.len());
        } else if j == 2 {
            reveal_strlit("metta");
            assert("metta"@.len() != "+"@.len());
        } else if j == 3 {
            reveal_strlit("match-type-or");
            assert("match-type-or"@.len() != "+"@.len());
        } else if j == 4 {
            reveal_strlit("first-from-pair");
            assert("first-from-pair"@.len() != "+"@.len());
        } else if j == 5 {
            reveal_strlit(":<");
            assert(":<"@.len() != "+"@.len());
        } else if j == 6 {
            reveal_strlit("Error");
            assert("Error"@.len() != "+"@.len());
        } else if j == 7 {
            reveal_strlit("error");
            assert("error"@.len() != "+"@.len());
        } else if j == 8 {
            reveal_strlit("is-error");
            assert("is-error"@.len() != "+"@.len());
        } else if j == 9 {
            reveal_strlit("catch");
            assert("catch"@.len() != "+"@.len());
        } else if j == 10 {
            reveal_strlit("new-state");
            assert("new-state"@.len() != "+"@.len());
        }
    }
    lemma_last_named_none(signature_part10(), "+"@);
    assert forall|j: int| 0 <= j < signature_part11().len() implies #[trigger] signature_part11()[j].name != "+"@ by {
        if j == 0 {
            reveal_strlit("get-state");
            assert("get-state"@.len() != "+"@.len());
        } else if j == 1 {
            reveal_strlit("change-state!");
            assert("change-state!"@.len() != "+"@.len());
        } else if j == 2 {
            reveal_strlit("println!");
            assert("println!"@.len() != "+"@.len());
        } else if j == 3 {
            reveal_strlit("trace!");
            assert("trace!"@.len() != "+"@.len());
        } else if j == 4 {
            reveal_strlit("repr");
            assert("repr"@.len() != "+"@.len());
        } else if j == 5 {
            reveal_strlit("format-args");
            assert("format-args"@.len() != "+"@.len());
        } else if j == 6 {
            reveal_strlit("=alpha");
            assert("=alpha"@.len() != "+"@.len());
        } else if j == 7 {
            reveal_strlit("include");
            assert("include"@.len() != "+"@.len());
        } else if j == 8 {
            reveal_strlit("import!");
            assert("import!"@.len() != "+"@.len());
        } else if j == 9 {
            reveal_strlit("bind!");
            assert("bind!"@.len() != "+"@.len());
        } else if j == 10 {
            reveal_strlit("mod-space!");
            assert("mod-space!"@.len() != "+"@.len());
        }
    }
    lemma_last_named_none(signature_part11(), "+"@);
    assert forall|j: int| 0 <= j < signature_part12().len() implies #[trigger] signature_part12()[j].name != "+"@ by {
        if j == 0 {
            reveal_strlit("print-mods!");
            assert("print-mods!"@.len() != "+"@.len());
        } else if j == 1 {
            reveal_strlit("pragma!");
            assert("pragma!"@.len() != "+"@.len());
        } else if j == 2 {
            reveal_strlit("new-memo");
            assert("new-memo"@.len() != "+"@.len());
        } else if j == 3 {
            reveal_strlit("memo");
            assert("memo"@.len() != "+"@.len());
        } else if j == 4 {
            reveal_strlit("memo-first");
            assert("memo-first"@.len() != "+"@.len());
        } else if j == 5 {
            reveal_strlit("clear-memo!");
            assert("clear-memo!"@.len() != "+"@.len());
        } else if j == 6 {
            reveal_strlit("memo-stats");
            assert("memo-stats"@.len() != "+"@.len());
        } else if j == 7 {
            reveal_strlit("assertEqual");
            assert("assertEqual"@.len() != "+"@.len());
        } else if j == 8 {
            reveal_strlit("assertEqualMsg");
            assert("assertEqualMsg"@.len() != "+"@.len());
        } else if j == 9 {
            reveal_strlit("assertAlphaEqual");
            assert("assertAlphaEqual"@.len() != "+"@.len());
        } else if j == 10 {
            reveal_strlit("assertAlphaEqualMsg");
            assert("assertAlphaEqualMsg"@.len() != "+"@.len());
        }
    }
    lemma_last_named_none(signature_part12(), "+"@);
    assert forall|j: int| 0 <= j < signature_part13().len() implies #[trigger] signature_part13()[j].name != "+"@ by {
        if j == 0 {
            reveal_strlit("assertEqualToResult");
            assert("assertEqualToResult"@.len() != "+"@.len());
        } else if j == 1 {
            reveal_strlit("assertEqualToResultMsg");
            assert("assertEqualToResultMsg"@.len() != "+"@.len());
        } else if j == 2 {
            reveal_strlit("assertAlphaEqualToResult");
            assert("assertAlphaEqualToResult"@.len() != "+"@.len());
        } else if j == 3 {
            reveal_strlit("assertAlphaEqualToResultMsg");
            assert("assertAlphaEqualToResultMsg"@.len() != "+"@.len());
        }
    }
    lemma_last_named_none(signature_part13(), "+"@);
    lemma_found_base(0, "+"@, 0);
    lemma_found_step(1, "+"@, signature_prefix(0).len() - signature_part(0).len() + 0);
    lemma_found_step(2, "+"@, signature_prefix(0).len() - signature_part(0).len() + 0);
    lemma_found_step(3, "+"@, signature_prefix(0).len() - signature_part(0).len() + 0);
    lemma_found_step(4, "+"@, signature_prefix(0).len() - signature_part(0).len() + 0);
    lemma_found_step(5, "+"@, signature_prefix(0).len() - signature_part(0).len() + 0);
    lemma_found_step(6, "+"@, signature_prefix(0).len() - signature_part(0).len() + 0);
    lemma_found_step(7, "+"@, signature_prefix(0).len() - signature_part(0).len() + 0);
    lemma_found_step(8, "+"@, signature_prefix(0).len() - signature_part(0).len() + 0);
    lemma_found_step(9, "+"@, signature_prefix(0).len() - signature_part(0).len() + 0);
    lemma_found_step(10, "+"@, signature_prefix(0).len() - signature_part(0).len() + 0);
    lemma_found_step(11, "+"@, signature_prefix(0).len() - signature_part(0).len() + 0);
    lemma_found_step(12, "+"@, signature_prefix(0).len() - signature_part(0).len() + 0);
    lemma_found_step(13, "+"@, signature_prefix(0).len() - signature_part(0).len() + 0);
    lemma_table_prefix();
}

/// The registry holds `-` once, as entry 1 of part 1.
proof fn lemma_registered_sub()
    ensures
        signature_of("-"@) == Some(signature_part0()[1]),
{
    broadcast use vstd::string::group_string_axioms;

    reveal_strlit("-");
    assert forall|j: int| 2 <= j < signature_part0().len() implies #[trigger] signature_part0()[j].name != "-"@ by {
        if j == 2 {
            reveal_strlit("*");
            assert("*"@[0] != "-"@[0]);
        } else if j == 3 {
            reveal_strlit("/");
            assert("/"@[0] != "-"@[0]);
        } else if j == 4 {
            reveal_strlit("%");
            assert("%"@[0] != "-"@[0]);
        } else if j == 5 {
            reveal_strlit("min");
            assert("min"@.len() != "-"@.len());
        } else if j == 6 {
            reveal_strlit("max");
            assert("max"@.len() != "-"@.len());
        } else if j == 7 {
            reveal_strlit("/safe");
            assert("/safe"@.len() != "-"@.len());
        } else if j == 8 {
            reveal_strlit("clamp");
            assert("clamp"@.len() != "-"@.len());
        } else if j == 9 {
            reveal_strlit("floor-div");
            assert("floor-div"@.len() != "-"@.len());
        } else if j == 10 {
            reveal_strlit("abs");
            assert("abs"@.len() != "-"@.len());
        }
    }
    lemma_last_named_at(signature_part0(), "-"@, 1);
    assert forall|j: int| 0 <= j < signature_part1().len() implies #[trigger] signature_part1()[j].name != "-"@ by {
        if j == 0 {
            reveal_strlit("abs-math");
            assert("abs-math"@.len() != "-"@.len());
        } else if j == 1 {
            reveal_strlit("floor");
            assert("floor"@.len() != "-"@.len());
        } else if j == 2 {
            reveal_strlit("floor-math");
            assert("floor-math"@.len() != "-"@.len());
        } else if j == 3 {
            reveal_strlit("ceil");
            assert("ceil"@.len() != "-"@.len());
        } else if j == 4 {
            reveal_strlit("ceil-math");
            assert("ceil-math"@.len() != "-"@.len());
        } else if j == 5 {
            reveal_strlit("round");
            assert("round"@.len() != "-"@.len());
        } else if j == 6 {
            reveal_strlit("round-math");
            assert("round-math"@.len() != "-"@.len());
        } else if j == 7 {
            reveal_strlit("sqrt");
            assert("sqrt"@.len() != "-"@.len());
        } else if j == 8 {
            reveal_strlit("sqrt-math");
            assert("sqrt-math"@.len() != "-"@.len());
        } else if j == 9 {
            reveal_strlit("trunc");
            assert("trunc"@.len() != "-"@.len());
        } else if j == 10 {
            reveal_strlit("trunc-math");
            assert("trunc-math"@.len() != "-"@.len());
        }
    }
    lemma_last_named_none(signature_part1(), "-"@);
    assert forall|j: int| 0 <= j < signature_part2().len() implies #[trigger] signature_part2()[j].name != "-"@ by {
        if j == 0 {
            reveal_strlit("pow");
            assert("pow"@.len() != "-"@.len());
        } else if j == 1 {
            reveal_strlit("pow-math");
            assert("pow-math"@.len() != "-"@.len());
        } else if j == 2 {
            reveal_strlit("log");
            assert("log"@.len() != "-"@.len());
        } else if j == 3 {
            reveal_strlit("log-math");
            assert("log-math"@.len() != "-"@.len());
        } else if j == 4 {
            reveal_strlit("sin-math");
            assert("sin-math"@.len() != "-"@.len());
        } else if j == 5 {
            reveal_strlit("cos-math");
            assert("cos-math"@.len() != "-"@.len());
        } else if j == 6 {
            reveal_strlit("tan-math");
            assert("tan-math"@.len() != "-"@.len());
        } else if j == 7 {
            reveal_strlit("asin-math");
            assert("asin-math"@.len() != "-"@.len());
        } else if j == 8 {
            reveal_strlit("acos-math");
            assert("acos-math"@.len() != "-"@.len());
        } else if j == 9 {
            reveal_strlit("atan-math");
            assert("atan-math"@.len() != "-"@.len());
        } else if j == 10 {
            reveal_strlit("isnan-math");
            assert("isnan-math"@.len() != "-"@.len());
        }
    }
    lemma_last_named_none(signature_part2(), "-"@);
    assert forall|j: int| 0 <= j < signature_part3().len() implies #[trigger] signature_part3()[j].name != "-"@ by {
        if j == 0 {
            reveal_strlit("isinf-math");
            assert("isinf-math"@.len() != "-"@.len());
        } else if j == 1 {
            reveal_strlit("<");
            assert("<"@[0] != "-"@[0]);
        } else if j == 2 {
            reveal_strlit("<=");
            assert("<="@.len() != "-"@.len());
        } else if j == 3 {
            reveal_strlit(">");
            assert(">"@[0] != "-"@[0]);
        } else if j == 4 {
            reveal_strlit(">=");
            assert(">="@.len() != "-"@.len());
        } else if j == 5 {
            reveal_strlit("==");
            assert("=="@.len() != "-"@.len());
        } else if j == 6 {
            reveal_strlit("!=");
            assert("!="@.len() != "-"@.len());
        } else if j == 7 {
            reveal_strlit("and");
            assert("and"@.len() != "-"@.len());
        } else if j == 8 {
            reveal_strlit("or");
            assert("or"@.len() != "-"@.len());
        } else if j == 9 {
            reveal_strlit("not");
            assert("not"@.len() != "-"@.len());
        } else if j == 10 {
            reveal_strlit("xor");
            assert("xor"@.len() != "-"@.len());
        }
    }
    lemma_last_named_none(signature_part3(), "-"@);
    assert forall|j: int| 0 <= j < signature_part4().len() implies #[trigger] signature_part4()[j].name != "-"@ by {
        if j == 0 {
            reveal_strlit("if");
            assert("if"@.len() != "-"@.len());
        } else if j == 1 {
            reveal_strlit("case");
            assert("case"@.len() != "-"@.len());
        } else if j == 2 {
            reveal_strlit("switch");
            assert("switch"@.len() != "-"@.len());
        } else if j == 3 {
            reveal_strlit("if-equal");
            assert("if-equal"@.len() != "-"@.len());
        } else if j == 4 {
            reveal_strlit("if-reducible");
            assert("if-reducible"@.len() != "-"@.len());
        } else if j == 5 {
            reveal_strlit("let");
            assert("let"@.len() != "-"@.len());
        } else if j == 6 {
            reveal_strlit("let*");
            assert("let*"@.len() != "-"@.len());
        } else if j == 7 {
            reveal_strlit("unify");
            assert("unify"@.len() != "-"@.len());
        } else if j == 8 {
            reveal_strlit("function");
            assert("function"@.len() != "-"@.len());
        } else if j == 9 {
            reveal_strlit("return");
            assert("return"@.len() != "-"@.len());
        } else if j == 10 {
            reveal_strlit("chain");
            assert("chain"@.len() != "-"@.len());
        }
    }
    lemma_last_named_none(signature_part4(), "-"@);
    assert forall|j: int| 0 <= j < signature_part5().len() implies #[trigger] signature_part5()[j].name != "-"@ by {
        if j == 0 {
            reveal_strlit("=");
            assert("="@[0] != "-"@[0]);
        } else if j == 1 {
            reveal_strlit(":");
            assert(":"@[0] != "-"@[0]);
        } else if j == 2 {
            reveal_strlit("match");
            assert("match"@.len() != "-"@.len());
        } else if j == 3 {
            reveal_strlit("match-or");
            assert("match-or"@.len() != "-"@.len());
        } else if j == 4 {
            reveal_strlit("new-space");
            assert("new-space"@.len() != "-"@.len());
        } else if j == 5 {
            reveal_strlit("add-atom");
            assert("add-atom"@.len() != "-"@.len());
        } else if j == 6 {
            reveal_strlit("remove-atom");
            assert("remove-atom"@.len() != "-"@.len());
        } else if j == 7 {
            reveal_strlit("get-atoms");
            assert("get-atoms"@.len() != "-"@.len());
        } else if j == 8 {
            reveal_strlit("collapse");
            assert("collapse"@.len() != "-"@.len());
        } else if j == 9 {
            reveal_strlit("collapse-bind");
            assert("collapse-bind"@.len() != "-"@.len());
        } else if j == 10 {
            reveal_strlit("car-atom");
            assert("car-atom"@.len() != "-"@.len());
        }
    }
    lemma_last_named_none(signature_part5(), "-"@);
    assert forall|j: int| 0 <= j < signature_part6().len() implies #[trigger] signature_part6()[j].name != "-"@ by {
        if j == 0 {
            reveal_strlit("cdr-atom");
            assert("cdr-atom"@.len() != "-"@.len());
        } else if j == 1 {
            reveal_strlit("cons-atom");
            assert("cons-atom"@.len() != "-"@.len());
        } else if j == 2 {
            reveal_strlit("decons-atom");
            assert("decons-atom"@.len() != "-"@.len());
        } else if j == 3 {
            reveal_strlit("size-atom");
            assert("size-atom"@.len() != "-"@.len());
        } else if j == 4 {
            reveal_strlit("max-atom");
            assert("max-atom"@.len() != "-"@.len());
        } else if j == 5 {
            reveal_strlit("min-atom");
            assert("min-atom"@.len() != "-"@.len());
        } else if j == 6 {
            reveal_strlit("index-atom");
            assert("index-atom"@.len() != "-"@.len());
        } else if j == 7 {
            reveal_strlit("empty");
            assert("empty"@.len() != "-"@.len());
        } else if j == 8 {
            reveal_strlit("tuple-concat");
            assert("tuple-concat"@.len() != "-"@.len());
        } else if j == 9 {
            reveal_strlit("tuple-count");
            assert("tuple-count"@.len() != "-"@.len());
        } else if j == 10 {
            reveal_strlit("without");
            assert("without"@.len() != "-"@.len());
        }
    }
    lemma_last_named_none(signature_part6(), "-"@);
    assert forall|j: int| 0 <= j < signature_part7().len() implies #[trigger] signature_part7()[j].name != "-"@ by {
        if j == 0 {
            reveal_strlit("element-of");
            assert("element-of"@.len() != "-"@.len());
        } else if j == 1 {
            reveal_strlit("range");
            assert("range"@.len() != "-"@.len());
        } else if j == 2 {
            reveal_strlit("reverse-atom");
            assert("reverse-atom"@.len() != "-"@.len());
        } else if j == 3 {
            reveal_strlit("flatten-atom");
            assert("flatten-atom"@.len() != "-"@.len());
        } else if j == 4 {
            reveal_strlit("zip-atom");
            assert("zip-atom"@.len() != "-"@.len());
        } else if j == 5 {
            reveal_strlit("take-atom");
            assert("take-atom"@.len() != "-"@.len());
        } else if j == 6 {
            reveal_strlit("drop-atom");
            assert("drop-atom"@.len() != "-"@.len());
        } else if j == 7 {
            reveal_strlit("map-atom");
            assert("map-atom"@.len() != "-"@.len());
        } else if j == 8 {
            reveal_strlit("filter-atom");
            assert("filter-atom"@.len() != "-"@.len());
        } else if j == 9 {
            reveal_strlit("foldl-atom");
            assert("foldl-atom"@.len() != "-"@.len());
        } else if j == 10 {
            reveal_strlit("sort-tuple");
            assert("sort-tuple"@.len() != "-"@.len());
        }
    }
    lemma_last_named_none(signature_part7(), "-"@);
    assert forall|j: int| 0 <= j < signature_part8().len() implies #[trigger] signature_part8()[j].name != "-"@ by {
        if j == 0 {
            reveal_strlit("best-candidate");
            assert("best-candidate"@.len() != "-"@.len());
        } else if j == 1 {
            reveal_strlit("unique-atom");
            assert("unique-atom"@.len() != "-"@.len());
        } else if j == 2 {
            reveal_strlit("union-atom");
            assert("union-atom"@.len() != "-"@.len());
        } else if j == 3 {
            reveal_strlit("intersection-atom");
            assert("intersection-atom"@.len() != "-"@.len());
        } else if j == 4 {
            reveal_strlit("subtraction-atom");
            assert("subtraction-atom"@.len() != "-"@.len());
        } else if j == 5 {
            reveal_strlit("superpose");
            assert("superpose"@.len() != "-"@.len());
        } else if j == 6 {
            reveal_strlit("amb");
            assert("amb"@.len() != "-"@.len());
        } else if j == 7 {
            reveal_strlit("guard");
            assert("guard"@.len() != "-"@.len());
        } else if j == 8 {
            reveal_strlit("commit");
            assert("commit"@.len() != "-"@.len());
        } else if j == 9 {
            reveal_strlit("backtrack");
            assert("backtrack"@.len() != "-"@.len());
        } else if j == 10 {
            reveal_strlit("quote");
            assert("quote"@.len() != "-"@.len());
        }
    }
    lemma_last_named_none(signature_part8(), "-"@);
    assert forall|j: int| 0 <= j < signature_part9().len() implies #[trigger] signature_part9()[j].name != "-"@ by {
        if j == 0 {
            reveal_strlit("unquote");
            assert("unquote"@.len() != "-"@.len());
        } else if j == 1 {
            reveal_strlit("eval");
            assert("eval"@.len() != "-"@.len());
        } else if j == 2 {
            reveal_strlit("!");
            assert("!"@[0] != "-"@[0]);
        } else if j == 3 {
            reveal_strlit("sealed");
            assert("sealed"@.len() != "-"@.len());
        } else if j == 4 {
            reveal_strlit("atom-subst");
            assert("atom-subst"@.len() != "-"@.len());
        } else if j == 5 {
            reveal_strlit("nop");
            assert("nop"@.len() != "-"@.len());
        } else if j == 6 {
            reveal_strlit("get-type");
            assert("get-type"@.len() != "-"@.len());
        } else if j == 7 {
            reveal_strlit("check-type");
            assert("check-type"@.len() != "-"@.len());
        } else if j == 8 {
            reveal_strlit("get-metatype");
            assert("get-metatype"@.len() != "-"@.len());
        } else if j == 9 {
            reveal_strlit("validate-atom");
            assert("validate-atom"@.len() != "-"@.len());
        } else if j == 10 {
            reveal_strlit("get-type-space");
            assert("get-type-space"@.len() != "-"@.len());
        }
    }
    lemma_last_named_none(signature_part9(), "-"@);
    assert forall|j: int| 0 <= j < signature_part10().len() implies #[trigger] signature_part10()[j].name != "-"@ by {
        if j == 0 {
            reveal_strlit("is-function");
            assert("is-function"@.len() != "-"@.len());
        } else if j == 1 {
            reveal_strlit("type-cast");
            assert("type-cast"@.len() != "-"@.len());
        } else if j == 2 {
            reveal_strlit("metta");
            assert("metta"@.len() != "-"@.len());
        } else if j == 3 {
            reveal_strlit("match-type-or");
            assert("match-type-or"@.len() != "-"@.len());
        } else if j == 4 {
            reveal_strlit("first-from-pair");
            assert("first-from-pair"@.len() != "-"@.len());
        } else if j == 5 {
            reveal_strlit(":<");
            assert(":<"@.len() != "-"@.len());
        } else if j == 6 {
            reveal_strlit("Error");
            assert("Error"@.len() != "-"@.len());
        } else if j == 7 {
            reveal_strlit("error");
            assert("error"@.len() != "-"@.len());
        } else if j == 8 {
            reveal_strlit("is-error");
            assert("is-error"@.len() != "-"@.len());
        } else if j == 9 {
            reveal_strlit("catch");
            assert("catch"@.len() != "-"@.len());
        } else if j == 10 {
            reveal_strlit("new-state");
            assert("new-state"@.len() != "-"@.len());
        }
    }
    lemma_last_named_none(signature_part10(), "-"@);
    assert forall|j: int| 0 <= j < signature_part11().len() implies #[trigger] signature_part11()[j].name != "-"@ by {
        if j == 0 {
            reveal_strlit("get-state");
            assert("get-state"@.len() != "-"@.len());
        } else if j == 1 {
            reveal_strlit("change-state!");
            assert("change-state!"@.len() != "-"@.len());
        } else if j == 2 {
            reveal_strlit("println!");
            assert("println!"@.len() != "-"@.len());
        } else if j == 3 {
            reveal_strlit("trace!");
            assert("trace!"@.len() != "-"@.len());
        } else if j == 4 {
            reveal_strlit("repr");
            assert("repr"@.len() != "-"@.len());
        } else if j == 5 {
            reveal_strlit("format-args");
            assert("format-args"@.len() != "-"@.len());
        } else if j == 6 {
            reveal_strlit("=alpha");
            assert("=alpha"@.len() != "-"@.len());
        } else if j == 7 {
            reveal_strlit("include");
            assert("include"@.len() != "-"@.len());
        } else if j == 8 {
            reveal_strlit("import!");
            assert("import!"@.len() != "-"@.len());
        } else if j == 9 {
            reveal_strlit("bind!");
            assert("bind!"@.len() != "-"@.len());
        } else if j == 10 {
            reveal_strlit("mod-space!");
            assert("mod-space!"@.len() != "-"@.len());
        }
    }
    lemma_last_named_none(signature_part11(), "-"@);
    assert forall|j: int| 0 <= j < signature_part12().len() implies #[trigger] signature_part12()[j].name != "-"@ by {
        if j == 0 {
            reveal_strlit("print-mods!");
            assert("print-mods!"@.len() != "-"@.len());
        } else if j == 1 {
            reveal_strlit("pragma!");
            assert("pragma!"@.len() != "-"@.len());
        } else if j == 2 {
            reveal_strlit("new-memo");
            assert("new-memo"@.len() != "-"@.len());
        } else if j == 3 {
            reveal_strlit("memo");
            assert("memo"@.len() != "-"@.len());
        } else if j == 4 {
            reveal_strlit("memo-first");
            assert("memo-first"@.len() != "-"@.len());
        } else if j == 5 {
            reveal_strlit("clear-memo!");
            assert("clear-memo!"@.len() != "-"@.len());
        } else if j == 6 {
            reveal_strlit("memo-stats");
            assert("memo-stats"@.len() != "-"@.len());
        } else if j == 7 {
            reveal_strlit("assertEqual");
            assert("assertEqual"@.len() != "-"@.len());
        } else if j == 8 {
            reveal_strlit("assertEqualMsg");
            assert("assertEqualMsg"@.len() != "-"@.len());
        } else if j == 9 {
            reveal_strlit("assertAlphaEqual");
            assert("assertAlphaEqual"@.len() != "-"@.len());
        } else if j == 10 {
            reveal_strlit("assertAlphaEqualMsg");
            assert("assertAlphaEqualMsg"@.len() != "-"@.len());
        }
    }
    lemma_last_named_none(signature_part12(), "-"@);
    assert forall|j: int| 0 <= j < signature_part13().len() implies #[trigger] signature_part13()[j].name != "-"@ by {
        if j == 0 {
            reveal_strlit("assertEqualToResult");
            assert("assertEqualToResult"@.len() != "-"@.len());
        } else if j == 1 {
            reveal_strlit("assertEqualToResultMsg");
            assert("assertEqualToResultMsg"@.len() != "-"@.len());
        } else if j == 2 {
            reveal_strlit("assertAlphaEqualToResult");
            assert("assertAlphaEqualToResult"@.len() != "-"@.len());
        } else if j == 3 {
            reveal_strlit("assertAlphaEqualToResultMsg");
            assert("assertAlphaEqualToResultMsg"@.len() != "-"@.len());
        }
    }
    lemma_last_named_none(signature_part13(), "-"@);
    lemma_found_base(0, "-"@, 1);
    lemma_found_step(1, "-"@, signature_prefix(0).len() - signature_part(0).len() + 1);
    lemma_found_step(2, "-"@, signature_prefix(0).len() - signature_part(0).len() + 1);
    lemma_found_step(3, "-"@, signature_prefix(0).len() - signature_part(0).len() + 1);
    lemma_found_step(4, "-"@, signature_prefix(0).len() - signature_part(0).len() + 1);
    lemma_found_step(5, "-"@, signature_prefix(0).len() - signature_part(0).len() + 1);
    lemma_found_step(6, "-"@, signature_prefix(0).len() - signature_part(0).len() + 1);
    lemma_found_step(7, "-"@, signature_prefix(0).len() - signature_part(0).len() + 1);
    lemma_found_step(8, "-"@, signature_prefix(0).len() - signature_part(0).len() + 1);
    lemma_found_step(9, "-"@, signature_prefix(0).len() - signature_part(0).len() + 1);
    lemma_found_step(10, "-"@, signature_prefix(0).len() - signature_part(0).len() + 1);
    lemma_found_step(11, "-"@, signature_prefix(0).len() - signature_part(0).len() + 1);
    lemma_found_step(12, "-"@, signature_prefix(0).len() - signature_part(0).len() + 1);
    lemma_found_step(13, "-"@, signature_prefix(0).len() - signature_part(0).len() + 1);
    lemma_table_prefix();
}

/// The registry holds `*` once, as entry 2 of part 1.
proof fn lemma_registered_mul()
    ensures
        signature_of("*"@) == Some(signature_part0()[2]),
{
    broadcast use vstd::string::group_string_axioms;

    reveal_strlit("*");
    assert forall|j: int| 3 <= j < signature_part0().len() implies #[trigger] signature_part0()[j].name != "*"@ by {
        if j == 3 {
            reveal_strlit("/");
            assert("/"@[0] != "*"@[0]);
        } else if j == 4 {
            reveal_strlit("%");
            assert("%"@[0] != "*"@[0]);
        } else if j == 5 {
            reveal_strlit("min");
            assert("min"@.len() != "*"@.len());
        } else if j == 6 {
            reveal_strlit("max");
            assert("max"@.len() != "*"@.len());
        } else if j == 7 {
            reveal_strlit("/safe");
            assert("/safe"@.len() != "*"@.len());
        } else if j == 8 {
            reveal_strlit("clamp");
            assert("clamp"@.len() != "*"@.len());
        } else if j == 9 {
            reveal_strlit("floor-div");
            assert("floor-div"@.len() != "*"@.len());
        } else if j == 10 {
            reveal_strlit("abs");
            assert("abs"@.len() != "*"@.len());
        }
    }
    lemma_last_named_at(signature_part0(), "*"@, 2);
    assert forall|j: int| 0 <= j < signature_part1().len() implies #[trigger] signature_part1()[j].name != "*"@ by {
        if j == 0 {
            reveal_strlit("abs-math");
            assert("abs-math"@.len() != "*"@.len());
        } else if j == 1 {
            reveal_strlit("floor");
            assert("floor"@.len() != "*"@.len());
        } else if j == 2 {
            reveal_strlit("floor-math");
            assert("floor-math"@.len() != "*"@.len());
        } else if j == 3 {
            reveal_strlit("ceil");
            assert("ceil"@.len() != "*"@.len());
        } else if j == 4 {
            reveal_strlit("ceil-math");
            assert("ceil-math"@.len() != "*"@.len());
        } else if j == 5 {
            reveal_strlit("round");
            assert("round"@.len() != "*"@.len());
        } else if j == 6 {
            reveal_strlit("round-math");
            assert("round-math"@.len() != "*"@.len());
        } else if j == 7 {
            reveal_strlit("sqrt");
            assert("sqrt"@.len() != "*"@.len());
        } else if j == 8 {
            reveal_strlit("sqrt-math");
            assert("sqrt-math"@.len() != "*"@.len());
        } else if j == 9 {
            reveal_strlit("trunc");
            assert("trunc"@.len() != "*"@.len());
        } else if j == 10 {
            reveal_strlit("trunc-math");
            assert("trunc-math"@.len() != "*"@.len());
        }
    }
    lemma_last_named_none(signature_part1(), "*"@);
    assert forall|j: int| 0 <= j < signature_part2().len() implies #[trigger] signature_part2()[j].name != "*"@ by {
        if j == 0 {
            reveal_strlit("pow");
            assert("pow"@.len() != "*"@.len());
        } else if j == 1 {
            reveal_strlit("pow-math");
            assert("pow-math"@.len() != "*"@.len());
        } else if j == 2 {
            reveal_strlit("log");
            assert("log"@.len() != "*"@.len());
        } else if j == 3 {
            reveal_strlit("log-math");
            assert("log-math"@.len() != "*"@.len());
        } else if j == 4 {
            reveal_strlit("sin-math");
            assert("sin-math"@.len() != "*"@.len());
        } else if j == 5 {
            reveal_strlit("cos-math");
            assert("cos-math"@.len() != "*"@.len());
        } else if j == 6 {
            reveal_strlit("tan-math");
            assert("tan-math"@.len() != "*"@.len());
        } else if j == 7 {
            reveal_strlit("asin-math");
            assert("asin-math"@.len() != "*"@.len());
        } else if j == 8 {
            reveal_strlit("acos-math");
            assert("acos-math"@.len() != "*"@.len());
        } else if j == 9 {
            reveal_strlit("atan-math");
            assert("atan-math"@.len() != "*"@.len());
        } else if j == 10 {
            reveal_strlit("isnan-math");
            assert("isnan-math"@.len() != "*"@.len());
        }
    }
    lemma_last_named_none(signature_part2(), "*"@);
    assert forall|j: int| 0 <= j < signature_part3().len() implies #[trigger] signature_part3()[j].name != "*"@ by {
        if j == 0 {
            reveal_strlit("isinf-math");
            assert("isinf-math"@.len() != "*"@.len());
        } else if j == 1 {
            reveal_strlit("<");
            assert("<"@[0] != "*"@[0]);
        } else if j == 2 {
            reveal_strlit("<=");
            assert("<="@.len() != "*"@.len());
        } else if j == 3 {
            reveal_strlit(">");
            assert(">"@[0] != "*"@[0]);
        } else if j == 4 {
            reveal_strlit(">=");
            assert(">="@.len() != "*"@.len());
        } else if j == 5 {
            reveal_strlit("==");
            assert("=="@.len() != "*"@.len());
        } else if j == 6 {
            reveal_strlit("!=");
            assert("!="@.len() != "*"@.len());
        } else if j == 7 {
            reveal_strlit("and");
            assert("and"@.len() != "*"@.len());
        } else if j == 8 {
            reveal_strlit("or");
            assert("or"@.len() != "*"@.len());
        } else if j == 9 {
            reveal_strlit("not");
            assert("not"@.len() != "*"@.len());
        } else if j == 10 {
            reveal_strlit("xor");
            assert("xor"@.len() != "*"@.len());
        }
    }
    lemma_last_named_none(signature_part3(), "*"@);
    assert forall|j: int| 0 <= j < signature_part4().len() implies #[trigger] signature_part4()[j].name != "*"@ by {
        if j == 0 {
            reveal_strlit("if");
            assert("if"@.len() != "*"@.len());
        } else if j == 1 {
            reveal_strlit("case");
            assert("case"@.len() != "*"@.len());
        } else if j == 2 {
            reveal_strlit("switch");
            assert("switch"@.len() != "*"@.len());
        } else if j == 3 {
            reveal_strlit("if-equal");
            assert("if-equal"@.len() != "*"@.len());
        } else if j == 4 {
            reveal_strlit("if-reducible");
            assert("if-reducible"@.len() != "*"@.len());
        } else if j == 5 {
            reveal_strlit("let");
            assert("let"@.len() != "*"@.len());
        } else if j == 6 {
            reveal_strlit("let*");
            assert("let*"@.len() != "*"@.len());
        } else if j == 7 {
            reveal_strlit("unify");
            assert("unify"@.len() != "*"@.len());
        } else if j == 8 {
            reveal_strlit("function");
            assert("function"@.len() != "*"@.len());
        } else if j == 9 {
            reveal_strlit("return");
            assert("return"@.len() != "*"@.len());
        } else if j == 10 {
            reveal_strlit("chain");
            assert("chain"@.len() != "*"@.len());
        }
    }
    lemma_last_named_none(signature_part4(), "*"@);
    assert forall|j: int| 0 <= j < signature_part5().len() implies #[trigger] signature_part5()[j].name != "*"@ by {
        if j == 0 {
            reveal_strlit("=");
            assert("="@[0] != "*"@[0]);
        } else if j == 1 {
            reveal_strlit(":");
            assert(":"@[0] != "*"@[0]);
        } else if j == 2 {
            reveal_strlit("match");
            assert("match"@.len() != "*"@.len());
        } else if j == 3 {
            reveal_strlit("match-or");
            assert("match-or"@.len() != "*"@.len());
        } else if j == 4 {
            reveal_strlit("new-space");
            assert("new-space"@.len() != "*"@.len());
        } else if j == 5 {
            reveal_strlit("add-atom");
            assert("add-atom"@.len() != "*"@.len());
        } else if j == 6 {
            reveal_strlit("remove-atom");
            assert("remove-atom"@.len() != "*"@.len());
        } else if j == 7 {
            reveal_strlit("get-atoms");
            assert("get-atoms"@.len() != "*"@.len());
        } else if j == 8 {
            reveal_strlit("collapse");
            assert("collapse"@.len() != "*"@.len());
        } else if j == 9 {
            reveal_strlit("collapse-bind");
            assert("collapse-bind"@.len() != "*"@.len());
        } else if j == 10 {
            reveal_strlit("car-atom");
            assert("car-atom"@.len() != "*"@.len());
        }
    }
    lemma_last_named_none(signature_part5(), "*"@);
    assert forall|j: int| 0 <= j < signature_part6().len() implies #[trigger] signature_part6()[j].name != "*"@ by {
        if j == 0 {
            reveal_strlit("cdr-atom");
            assert("cdr-atom"@.len() != "*"@.len());
        } else if j == 1 {
            reveal_strlit("cons-atom");
            assert("cons-atom"@.len() != "*"@.len());
        } else if j == 2 {
            reveal_strlit("decons-atom");
            assert("decons-atom"@.len() != "*"@.len());
        } else if j == 3 {
            reveal_strlit("size-atom");
            assert("size-atom"@.len() != "*"@.len());
        } else if j == 4 {
            reveal_strlit("max-atom");
            assert("max-atom"@.len() != "*"@.len());
        } else if j == 5 {
            reveal_strlit("min-atom");
            assert("min-atom"@.len() != "*"@.len());
        } else if j == 6 {
            reveal_strlit("index-atom");
            assert("index-atom"@.len() != "*"@.len());
        } else if j == 7 {
            reveal_strlit("empty");
            assert("empty"@.len() != "*"@.len());
        } else if j == 8 {
            reveal_strlit("tuple-concat");
            assert("tuple-concat"@.len() != "*"@.len());
        } else if j == 9 {
            reveal_strlit("tuple-count");
            assert("tuple-count"@.len() != "*"@.len());
        } else if j == 10 {
            reveal_strlit("without");
            assert("without"@.len() != "*"@.len());
        }
    }
    lemma_last_named_none(signature_part6(), "*"@);
    assert forall|j: int| 0 <= j < signature_part7().len() implies #[trigger] signature_part7()[j].name != "*"@ by {
        if j == 0 {
            reveal_strlit("element-of");
            assert("element-of"@.len() != "*"@.len());
        } else if j == 1 {
            reveal_strlit("range");
            assert("range"@.len() != "*"@.len());
        } else if j == 2 {
            reveal_strlit("reverse-atom");
            assert("reverse-atom"@.len() != "*"@.len());
        } else if j == 3 {
            reveal_strlit("flatten-atom");
            assert("flatten-atom"@.len() != "*"@.len());
        } else if j == 4 {
            reveal_strlit("zip-atom");
            assert("zip-atom"@.len() != "*"@.len());
        } else if j == 5 {
            reveal_strlit("take-atom");
            assert("take-atom"@.len() != "*"@.len());
        } else if j == 6 {
            reveal_strlit("drop-atom");
            assert("drop-atom"@.len() != "*"@.len());
        } else if j == 7 {
            reveal_strlit("map-atom");
            assert("map-atom"@.len() != "*"@.len());
        } else if j == 8 {
            reveal_strlit("filter-atom");
            assert("filter-atom"@.len() != "*"@.len());
        } else if j == 9 {
            reveal_strlit("foldl-atom");
            assert("foldl-atom"@.len() != "*"@.len());
        } else if j == 10 {
            reveal_strlit("sort-tuple");
            assert("sort-tuple"@.len() != "*"@.len());
        }
    }
    lemma_last_named_none(signature_part7(), "*"@);
    assert forall|j: int| 0 <= j < signature_part8().len() implies #[trigger] signature_part8()[j].name != "*"@ by {
        if j == 0 {
            reveal_strlit("best-candidate");
            assert("best-candidate"@.len() != "*"@.len());
        } else if j == 1 {
            reveal_strlit("unique-atom");
            assert("unique-atom"@.len() != "*"@.len());
        } else if j == 2 {
            reveal_strlit("union-atom");
            assert("union-atom"@.len() != "*"@.len());
        } else if j == 3 {
            reveal_strlit("intersection-atom");
            assert("intersection-atom"@.len() != "*"@.len());
        } else if j == 4 {
            reveal_strlit("subtraction-atom");
            assert("subtraction-atom"@.len() != "*"@.len());
        } else if j == 5 {
            reveal_strlit("superpose");
            assert("superpose"@.len() != "*"@.len());
        } else if j == 6 {
            reveal_strlit("amb");
            assert("amb"@.len() != "*"@.len());
        } else if j == 7 {
            reveal_strlit("guard");
            assert("guard"@.len() != "*"@.len());
        } else if j == 8 {
            reveal_strlit("commit");
            assert("commit"@.len() != "*"@.len());
        } else if j == 9 {
            reveal_strlit("backtrack");
            assert("backtrack"@.len() != "*"@.len());
        } else if j == 10 {
            reveal_strlit("quote");
            assert("quote"@.len() != "*"@.len());
        }
    }
    lemma_last_named_none(signature_part8(), "*"@);
    assert forall|j: int| 0 <= j < signature_part9().len() implies #[trigger] signature_part9()[j].name != "*"@ by {
        if j == 0 {
            reveal_strlit("unquote");
            assert("unquote"@.len() != "*"@.len());
        } else if j == 1 {
            reveal_strlit("eval");
            assert("eval"@.len() != "*"@.len());
        } else if j == 2 {
            reveal_strlit("!");
            assert("!"@[0] != "*"@[0]);
        } else if j == 3 {
            reveal_strlit("sealed");
            assert("sealed"@.len() != "*"@.len());
        } else if j == 4 {
            reveal_strlit("atom-subst");
            assert("atom-subst"@.len() != "*"@.len());
        } else if j == 5 {
            reveal_strlit("nop");
            assert("nop"@.len() != "*"@.len());
        } else if j == 6 {
            reveal_strlit("get-type");
            assert("get-type"@.len() != "*"@.len());
        } else if j == 7 {
            reveal_strlit("check-type");
            assert("check-type"@.len() != "*"@.len());
        } else if j == 8 {
            reveal_strlit("get-metatype");
            assert("get-metatype"@.len() != "*"@.len());
        } else if j == 9 {
            reveal_strlit("validate-atom");
            assert("validate-atom"@.len() != "*"@.len());
        } else if j == 10 {
            reveal_strlit("get-type-space");
            assert("get-type-space"@.len() != "*"@.len());
        }
    }
    lemma_last_named_none(signature_part9(), "*"@);
    assert forall|j: int| 0 <= j < signature_part10().len() implies #[trigger] signature_part10()[j].name != "*"@ by {
        if j == 0 {
            reveal_strlit("is-function");
            assert("is-function"@.len() != "*"@.len());
        } else if j == 1 {
            reveal_strlit("type-cast");
            assert("type-cast"@.len() != "*"@.len());
        } else if j == 2 {
            reveal_strlit("metta");
            assert("metta"@.len() != "*"@.len());
        } else if j == 3 {
            reveal_strlit("match-type-or");
            assert("match-type-or"@.len() != "*"@.len());
        } else if j == 4 {
            reveal_strlit("first-from-pair");
            assert("first-from-pair"@.len() != "*"@.len());
        } else if j == 5 {
            reveal_strlit(":<");
            assert(":<"@.len() != "*"@.len());
        } else if j == 6 {
            reveal_strlit("Error");
            assert("Error"@.len() != "*"@.len());
        } else if j == 7 {
            reveal_strlit("error");
            assert("error"@.len() != "*"@.len());
        } else if j == 8 {
            reveal_strlit("is-error");
            assert("is-error"@.len() != "*"@.len());
        } else if j == 9 {
            reveal_strlit("catch");
            assert("catch"@.len() != "*"@.len());
        } else if j == 10 {
            reveal_strlit("new-state");
            assert("new-state"@.len() != "*"@.len());
        }
    }
    lemma_last_named_none(signature_part10(), "*"@);
    assert forall|j: int| 0 <= j < signature_part11().len() implies #[trigger] signature_part11()[j].name != "*"@ by {
        if j == 0 {
            reveal_strlit("get-state");
            assert("get-state"@.len() != "*"@.len());
        } else if j == 1 {
            reveal_strlit("change-state!");
            assert("change-state!"@.len() != "*"@.len());
        } else if j == 2 {
            reveal_strlit("println!");
            assert("println!"@.len() != "*"@.len());
        } else if j == 3 {
            reveal_strlit("trace!");
            assert("trace!"@.len() != "*"@.len());
        } else if j == 4 {
            reveal_strlit("repr");
            assert("repr"@.len() != "*"@.len());
        } else if j == 5 {
            reveal_strlit("format-args");
            assert("format-args"@.len() != "*"@.len());
        } else if j == 6 {
            reveal_strlit("=alpha");
            assert("=alpha"@.len() != "*"@.len());
        } else if j == 7 {
            reveal_strlit("include");
            assert("include"@.len() != "*"@.len());
        } else if j == 8 {
            reveal_strlit("import!");
            assert("import!"@.len() != "*"@.len());
        } else if j == 9 {
            reveal_strlit("bind!");
            assert("bind!"@.len() != "*"@.len());
        } else if j == 10 {
            reveal_strlit("mod-space!");
            assert("mod-space!"@.len() != "*"@.len());
        }
    }
    lemma_last_named_none(signature_part11(), "*"@);
    assert forall|j: int| 0 <= j < signature_part12().len() implies #[trigger] signature_part12()[j].name != "*"@ by {
        if j == 0 {
            reveal_strlit("print-mods!");
            assert("print-mods!"@.len() != "*"@.len());
        } else if j == 1 {
            reveal_strlit("pragma!");
            assert("pragma!"@.len() != "*"@.len());
        } else if j == 2 {
            reveal_strlit("new-memo");
            assert("new-memo"@.len() != "*"@.len());
        } else if j == 3 {
            reveal_strlit("memo");
            assert("memo"@.len() != "*"@.len());
        } else if j == 4 {
            reveal_strlit("memo-first");
            assert("memo-first"@.len() != "*"@.len());
        } else if j == 5 {
            reveal_strlit("clear-memo!");
            assert("clear-memo!"@.len() != "*"@.len());
        } else if j == 6 {
            reveal_strlit("memo-stats");
            assert("memo-stats"@.len() != "*"@.len());
        } else if j == 7 {
            reveal_strlit("assertEqual");
            assert("assertEqual"@.len() != "*"@.len());
        } else if j == 8 {
            reveal_strlit("assertEqualMsg");
            assert("assertEqualMsg"@.len() != "*"@.len());
        } else if j == 9 {
            reveal_strlit("assertAlphaEqual");
            assert("assertAlphaEqual"@.len() != "*"@.len());
        } else if j == 10 {
            reveal_strlit("assertAlphaEqualMsg");
            assert("assertAlphaEqualMsg"@.len() != "*"@.len());
        }
    }
    lemma_last_named_none(signature_part12(), "*"@);
    assert forall|j: int| 0 <= j < signature_part13().len() implies #[trigger] signature_part13()[j].name != "*"@ by {
        if j == 0 {
            reveal_strlit("assertEqualToResult");
            assert("assertEqualToResult"@.len() != "*"@.len());
        } else if j == 1 {
            reveal_strlit("assertEqualToResultMsg");
            assert("assertEqualToResultMsg"@.len() != "*"@.len());
        } else if j == 2 {
            reveal_strlit("assertAlphaEqualToResult");
            assert("assertAlphaEqualToResult"@.len() != "*"@.len());
        } else if j == 3 {
            reveal_strlit("assertAlphaEqualToResultMsg");
            assert("assertAlphaEqualToResultMsg"@.len() != "*"@.len());
        }
    }
    lemma_last_named_none(signature_part13(), "*"@);
    lemma_found_base(0, "*"@, 2);
    lemma_found_step(1, "*"@, signature_prefix(0).len() - signature_part(0).len() + 2);
    lemma_found_step(2, "*"@, signature_prefix(0).len() - signature_part(0).len() + 2);
    lemma_found_step(3, "*"@, signature_prefix(0).len() - signature_part(0).len() + 2);
    lemma_found_step(4, "*"@, signature_prefix(0).len() - signature_part(0).len() + 2);
    lemma_found_step(5, "*"@, signature_prefix(0).len() - signature_part(0).len() + 2);
    lemma_found_step(6, "*"@, signature_prefix(0).len() - signature_part(0).len() + 2);
    lemma_found_step(7, "*"@, signature_prefix(0).len() - signature_part(0).len() + 2);
    lemma_found_step(8, "*"@, signature_prefix(0).len() - signature_part(0).len() + 2);
    lemma_found_step(9, "*"@, signature_prefix(0).len() - signature_part(0).len() + 2);
    lemma_found_step(10, "*"@, signature_prefix(0).len() - signature_part(0).len() + 2);
    lemma_found_step(11, "*"@, signature_prefix(0).len() - signature_part(0).len() + 2);
    lemma_found_step(12, "*"@, signature_prefix(0).len() - signature_part(0).len() + 2);
    lemma_found_step(13, "*"@, signature_prefix(0).len() - signature_part(0).len() + 2);
    lemma_table_prefix();
}

/// The registry holds `/` once, as entry 3 of part 1.
proof fn lemma_registered_div()
    ensures
        signature_of("/"@) == Some(signature_part0()[3]),
{
    broadcast use vstd::string::group_string_axioms;

    reveal_strlit("/");
    assert forall|j: int| 4 <= j < signature_part0().len() implies #[trigger] signature_part0()[j].name != "/"@ by {
        if j == 4 {
            reveal_strlit("%");
            assert("%"@[0] != "/"@[0]);
        } else if j == 5 {
            reveal_strlit("min");
            assert("min"@.len() != "/"@.len());
        } else if j == 6 {
            reveal_strlit("max");
            assert("max"@.len() != "/"@.len());
        } else if j == 7 {
            reveal_strlit("/safe");
            assert("/safe"@.len() != "/"@.len());
        } else if j == 8 {
            reveal_strlit("clamp");
            assert("clamp"@.len() != "/"@.len());
        } else if j == 9 {
            reveal_strlit("floor-div");
            assert("floor-div"@.len() != "/"@.len());
        } else if j == 10 {
            reveal_strlit("abs");
            assert("abs"@.len() != "/"@.len());
        }
    }
    lemma_last_named_at(signature_part0(), "/"@, 3);
    assert forall|j: int| 0 <= j < signature_part1().len() implies #[trigger] signature_part1()[j].name != "/"@ by {
        if j == 0 {
            reveal_strlit("abs-math");
            assert("abs-math"@.len() != "/"@.len());
        } else if j == 1 {
            reveal_strlit("floor");
            assert("floor"@.len() != "/"@.len());
        } else if j == 2 {
            reveal_strlit("floor-math");
            assert("floor-math"@.len() != "/"@.len());
        } else if j == 3 {
            reveal_strlit("ceil");
            assert("ceil"@.len() != "/"@.len());
        } else if j == 4 {
            reveal_strlit("ceil-math");
            assert("ceil-math"@.len() != "/"@.len());
        } else if j == 5 {
            reveal_strlit("round");
            assert("round"@.len() != "/"@.len());
        } else if j == 6 {
            reveal_strlit("round-math");
            assert("round-math"@.len() != "/"@.len());
        } else if j == 7 {
            reveal_strlit("sqrt");
            assert("sqrt"@.len() != "/"@.len());
        } else if j == 8 {
            reveal_strlit("sqrt-math");
            assert("sqrt-math"@.len() != "/"@.len());
        } else if j == 9 {
            reveal_strlit("trunc");
            assert("trunc"@.len() != "/"@.len());
        } else if j == 10 {
            reveal_strlit("trunc-math");
            assert("trunc-math"@.len() != "/"@.len());
        }
    }
    lemma_last_named_none(signature_part1(), "/"@);
    assert forall|j: int| 0 <= j < signature_part2().len() implies #[trigger] signature_part2()[j].name != "/"@ by {
        if j == 0 {
            reveal_strlit("pow");
            assert("pow"@.len() != "/"@.len());
        } else if j == 1 {
            reveal_strlit("pow-math");
            assert("pow-math"@.len() != "/"@.len());
        } else if j == 2 {
            reveal_strlit("log");
            assert("log"@.len() != "/"@.len());
        } else if j == 3 {
            reveal_strlit("log-math");
            assert("log-math"@.len() != "/"@.len());
        } else if j == 4 {
            reveal_strlit("sin-math");
            assert("sin-math"@.len() != "/"@.len());
        } else if j == 5 {
            reveal_strlit("cos-math");
            assert("cos-math"@.len() != "/"@.len());
        } else if j == 6 {
            reveal_strlit("tan-math");
            assert("tan-math"@.len() != "/"@.len());
        } else if j == 7 {
            reveal_strlit("asin-math");
            assert("asin-math"@.len() != "/"@.len());
        } else if j == 8 {
            reveal_strlit("acos-math");
            assert("acos-math"@.len() != "/"@.len());
        } else if j == 9 {
            reveal_strlit("atan-math");
            assert("atan-math"@.len() != "/"@.len());
        } else if j == 10 {
            reveal_strlit("isnan-math");
            assert("isnan-math"@.len() != "/"@.len());
        }
    }
    lemma_last_named_none(signature_part2(), "/"@);
    assert forall|j: int| 0 <= j < signature_part3().len() implies #[trigger] signature_part3()[j].name != "/"@ by {
        if j == 0 {
            reveal_strlit("isinf-math");
            assert("isinf-math"@.len() != "/"@.len());
        } else if j == 1 {
            reveal_strlit("<");
            assert("<"@[0] != "/"@[0]);
        } else if j == 2 {
            reveal_strlit("<=");
            assert("<="@.len() != "/"@.len());
        } else if j == 3 {
            reveal_strlit(">");
            assert(">"@[0] != "/"@[0]);
        } else if j == 4 {
            reveal_strlit(">=");
            assert(">="@.len() != "/"@.len());
        } else if j == 5 {
            reveal_strlit("==");
            assert("=="@.len() != "/"@.len());
        } else if j == 6 {
            reveal_strlit("!=");
            assert("!="@.len() != "/"@.len());
        } else if j == 7 {
            reveal_strlit("and");
            assert("and"@.len() != "/"@.len());
        } else if j == 8 {
            reveal_strlit("or");
            assert("or"@.len() != "/"@.len());
        } else if j == 9 {
            reveal_strlit("not");
            assert("not"@.len() != "/"@.len());
        } else if j == 10 {
            reveal_strlit("xor");
            assert("xor"@.len() != "/"@.len());
        }
    }
    lemma_last_named_none(signature_part3(), "/"@);
    assert forall|j: int| 0 <= j < signature_part4().len() implies #[trigger] signature_part4()[j].name != "/"@ by {
        if j == 0 {
            reveal_strlit("if");
            assert("if"@.len() != "/"@.len());
        } else if j == 1 {
            reveal_strlit("case");
            assert("case"@.len() != "/"@.len());
        } else if j == 2 {
            reveal_strlit("switch");
            assert("switch"@.len() != "/"@.len());
        } else if j == 3 {
            reveal_strlit("if-equal");
            assert("if-equal"@.len() != "/"@.len());
        } else if j == 4 {
            reveal_strlit("if-reducible");
            assert("if-reducible"@.len() != "/"@.len());
        } else if j == 5 {
            reveal_strlit("let");
            assert("let"@.len() != "/"@.len());
        } else if j == 6 {
            reveal_strlit("let*");
            assert("let*"@.len() != "/"@.len());
        } else if j == 7 {
            reveal_strlit("unify");
            assert("unify"@.len() != "/"@.len());
        } else if j == 8 {
            reveal_strlit("function");
            assert("function"@.len() != "/"@.len());
        } else if j == 9 {
            reveal_strlit("return");
            assert("return"@.len() != "/"@.len());
        } else if j == 10 {
            reveal_strlit("chain");
            assert("chain"@.len() != "/"@.len());
        }
    }
    lemma_last_named_none(signature_part4(), "/"@);
    assert forall|j: int| 0 <= j < signature_part5().len() implies #[trigger] signature_part5()[j].name != "/"@ by {
        if j == 0 {
            reveal_strlit("=");
            assert("="@[0] != "/"@[0]);
        } else if j == 1 {
            reveal_strlit(":");
            assert(":"@[0] != "/"@[0]);
        } else if j == 2 {
            reveal_strlit("match");
            assert("match"@.len() != "/"@.len());
        } else if j == 3 {
            reveal_strlit("match-or");
            assert("match-or"@.len() != "/"@.len());
        } else if j == 4 {
            reveal_strlit("new-space");
            assert("new-space"@.len() != "/"@.len());
        } else if j == 5 {
            reveal_strlit("add-atom");
            assert("add-atom"@.len() != "/"@.len());
        } else if j == 6 {
            reveal_strlit("remove-atom");
            assert("remove-atom"@.len() != "/"@.len());
        } else if j == 7 {
            reveal_strlit("get-atoms");
            assert("get-atoms"@.len() != "/"@.len());
        } else if j == 8 {
            reveal_strlit("collapse");
            assert("collapse"@.len() != "/"@.len());
        } else if j == 9 {
            reveal_strlit("collapse-bind");
            assert("collapse-bind"@.len() != "/"@.len());
        } else if j == 10 {
            reveal_strlit("car-atom");
            assert("car-atom"@.len() != "/"@.len());
        }
    }
    lemma_last_named_none(signature_part5(), "/"@);
    assert forall|j: int| 0 <= j < signature_part6().len() implies #[trigger] signature_part6()[j].name != "/"@ by {
        if j == 0 {
            reveal_strlit("cdr-atom");
            assert("cdr-atom"@.len() != "/"@.len());
        } else if j == 1 {
            reveal_strlit("cons-atom");
            assert("cons-atom"@.len() != "/"@.len());
        } else if j == 2 {
            reveal_strlit("decons-atom");
            assert("decons-atom"@.len() != "/"@.len());
        } else if j == 3 {
            reveal_strlit("size-atom");
            assert("size-atom"@.len() != "/"@.len());
        } else if j == 4 {
            reveal_strlit("max-atom");
            assert("max-atom"@.len() != "/"@.len());
        } else if j == 5 {
            reveal_strlit("min-atom");
            assert("min-atom"@.len() != "/"@.len());
        } else if j == 6 {
            reveal_strlit("index-atom");
            assert("index-atom"@.len() != "/"@.len());
        } else if j == 7 {
            reveal_strlit("empty");
            assert("empty"@.len() != "/"@.len());
        } else if j == 8 {
            reveal_strlit("tuple-concat");
            assert("tuple-concat"@.len() != "/"@.len());
        } else if j == 9 {
            reveal_strlit("tuple-count");
            assert("tuple-count"@.len() != "/"@.len());
        } else if j == 10 {
            reveal_strlit("without");
            assert("without"@.len() != "/"@.len());
        }
    }
    lemma_last_named_none(signature_part6(), "/"@);
    assert forall|j: int| 0 <= j < signature_part7().len() implies #[trigger] signature_part7()[j].name != "/"@ by {
        if j == 0 {
            reveal_strlit("element-of");
            assert("element-of"@.len() != "/"@.len());
        } else if j == 1 {
            reveal_strlit("range");
            assert("range"@.len() != "/"@.len());
        } else if j == 2 {
            reveal_strlit("reverse-atom");
            assert("reverse-atom"@.len() != "/"@.len());
        } else if j == 3 {
            reveal_strlit("flatten-atom");
            assert("flatten-atom"@.len() != "/"@.len());
        } else if j == 4 {
            reveal_strlit("zip-atom");
            assert("zip-atom"@.len() != "/"@.len());
        } else if j == 5 {
            reveal_strlit("take-atom");
            assert("take-atom"@.len() != "/"@.len());
        } else if j == 6 {
            reveal_strlit("drop-atom");
            assert("drop-atom"@.len() != "/"@.len());
        } else if j == 7 {
            reveal_strlit("map-atom");
            assert("map-atom"@.len() != "/"@.len());
        } else if j == 8 {
            reveal_strlit("filter-atom");
            assert("filter-atom"@.len() != "/"@.len());
        } else if j == 9 {
            reveal_strlit("foldl-atom");
            assert("foldl-atom"@.len() != "/"@.len());
        } else if j == 10 {
            reveal_strlit("sort-tuple");
            assert("sort-tuple"@.len() != "/"@.len());
        }
    }
    lemma_last_named_none(signature_part7(), "/"@);
    assert forall|j: int| 0 <= j < signature_part8().len() implies #[trigger] signature_part8()[j].name != "/"@ by {
        if j == 0 {
            reveal_strlit("best-candidate");
            assert("best-candidate"@.len() != "/"@.len());
        } else if j == 1 {
            reveal_strlit("unique-atom");
            assert("unique-atom"@.len() != "/"@.len());
        } else if j == 2 {
            reveal_strlit("union-atom");
            assert("union-atom"@.len() != "/"@.len());
        } else if j == 3 {
            reveal_strlit("intersection-atom");
            assert("intersection-atom"@.len() != "/"@.len());
        } else if j == 4 {
            reveal_strlit("subtraction-atom");
            assert("subtraction-atom"@.len() != "/"@.len());
        } else if j == 5 {
            reveal_strlit("superpose");
            assert("superpose"@.len() != "/"@.len());
        } else if j == 6 {
            reveal_strlit("amb");
            assert("amb"@.len() != "/"@.len());
        } else if j == 7 {
            reveal_strlit("guard");
            assert("guard"@.len() != "/"@.len());
        } else if j == 8 {
            reveal_strlit("commit");
            assert("commit"@.len() != "/"@.len());
        } else if j == 9 {
            reveal_strlit("backtrack");
            assert("backtrack"@.len() != "/"@.len());
        } else if j == 10 {
            reveal_strlit("quote");
            assert("quote"@.len() != "/"@.len());
        }
    }
    lemma_last_named_none(signature_part8(), "/"@);
    assert forall|j: int| 0 <= j < signature_part9().len() implies #[trigger] signature_part9()[j].name != "/"@ by {
        if j == 0 {
            reveal_strlit("unquote");
            assert("unquote"@.len() != "/"@.len());
        } else if j == 1 {
            reveal_strlit("eval");
            assert("eval"@.len() != "/"@.len());
        } else if j == 2 {
            reveal_strlit("!");
            assert("!"@[0] != "/"@[0]);
        } else if j == 3 {
            reveal_strlit("sealed");
            assert("sealed"@.len() != "/"@.len());
        } else if j == 4 {
            reveal_strlit("atom-subst");
            assert("atom-subst"@.len() != "/"@.len());
        } else if j == 5 {
            reveal_strlit("nop");
            assert("nop"@.len() != "/"@.len());
        } else if j == 6 {
            reveal_strlit("get-type");
            assert("get-type"@.len() != "/"@.len());
        } else if j == 7 {
            reveal_strlit("check-type");
            assert("check-type"@.len() != "/"@.len());
        } else if j == 8 {
            reveal_strlit("get-metatype");
            assert("get-metatype"@.len() != "/"@.len());
        } else if j == 9 {
            reveal_strlit("validate-atom");
            assert("validate-atom"@.len() != "/"@.len());
        } else if j == 10 {
            reveal_strlit("get-type-space");
            assert("get-type-space"@.len() != "/"@.len());
        }
    }
    lemma_last_named_none(signature_part9(), "/"@);
    assert forall|j: int| 0 <= j < signature_part10().len() implies #[trigger] signature_part10()[j].name != "/"@ by {
        if j == 0 {
            reveal_strlit("is-function");
            assert("is-function"@.len() != "/"@.len());
        } else if j == 1 {
            reveal_strlit("type-cast");
            assert("type-cast"@.len() != "/"@.len());
        } else if j == 2 {
            reveal_strlit("metta");
            assert("metta"@.len() != "/"@.len());
        } else if j == 3 {
            reveal_strlit("match-type-or");
            assert("match-type-or"@.len() != "/"@.len());
        } else if j == 4 {
            reveal_strlit("first-from-pair");
            assert("first-from-pair"@.len() != "/"@.len());
        } else if j == 5 {
            reveal_strlit(":<");
            assert(":<"@.len() != "/"@.len());
        } else if j == 6 {
            reveal_strlit("Error");
            assert("Error"@.len() != "/"@.len());
        } else if j == 7 {
            reveal_strlit("error");
            assert("error"@.len() != "/"@.len());
        } else if j == 8 {
            reveal_strlit("is-error");
            assert("is-error"@.len() != "/"@.len());
        } else if j == 9 {
            reveal_strlit("catch");
            assert("catch"@.len() != "/"@.len());
        } else if j == 10 {
            reveal_strlit("new-state");
            assert("new-state"@.len() != "/"@.len());
        }
    }
    lemma_last_named_none(signature_part10(), "/"@);
    assert forall|j: int| 0 <= j < signature_part11().len() implies #[trigger] signature_part11()[j].name != "/"@ by {
        if j == 0 {
            reveal_strlit("get-state");
            assert("get-state"@.len() != "/"@.len());
        } else if j == 1 {
            reveal_strlit("change-state!");
            assert("change-state!"@.len() != "/"@.len());
        } else if j == 2 {
            reveal_strlit("println!");
            assert("println!"@.len() != "/"@.len());
        } else if j == 3 {
            reveal_strlit("trace!");
            assert("trace!"@.len() != "/"@.len());
        } else if j == 4 {
            reveal_strlit("repr");
            assert("repr"@.len() != "/"@.len());
        } else if j == 5 {
            reveal_strlit("format-args");
            assert("format-args"@.len() != "/"@.len());
        } else if j == 6 {
            reveal_strlit("=alpha");
            assert("=alpha"@.len() != "/"@.len());
        } else if j == 7 {
            reveal_strlit("include");
            assert("include"@.len() != "/"@.len());
        } else if j == 8 {
            reveal_strlit("import!");
            assert("import!"@.len() != "/"@.len());
        } else if j == 9 {
            reveal_strlit("bind!");
            assert("bind!"@.len() != "/"@.len());
        } else if j == 10 {
            reveal_strlit("mod-space!");
            assert("mod-space!"@.len() != "/"@.len());
        }
    }
    lemma_last_named_none(signature_part11(), "/"@);
    assert forall|j: int| 0 <= j < signature_part12().len() implies #[trigger] signature_part12()[j].name != "/"@ by {
        if j == 0 {
            reveal_strlit("print-mods!");
            assert("print-mods!"@.len() != "/"@.len());
        } else if j == 1 {
            reveal_strlit("pragma!");
            assert("pragma!"@.len() != "/"@.len());
        } else if j == 2 {
            reveal_strlit("new-memo");
            assert("new-memo"@.len() != "/"@.len());
        } else if j == 3 {
            reveal_strlit("memo");
            assert("memo"@.len() != "/"@.len());
        } else if j == 4 {
            reveal_strlit("memo-first");
            assert("memo-first"@.len() != "/"@.len());
        } else if j == 5 {
            reveal_strlit("clear-memo!");
            assert("clear-memo!"@.len() != "/"@.len());
        } else if j == 6 {
            reveal_strlit("memo-stats");
            assert("memo-stats"@.len() != "/"@.len());
        } else if j == 7 {
            reveal_strlit("assertEqual");
            assert("assertEqual"@.len() != "/"@.len());
        } else if j == 8 {
            reveal_strlit("assertEqualMsg");
            assert("assertEqualMsg"@.len() != "/"@.len());
        } else if j == 9 {
            reveal_strlit("assertAlphaEqual");
            assert("assertAlphaEqual"@.len() != "/"@.len());
        } else if j == 10 {
            reveal_strlit("assertAlphaEqualMsg");
            assert("assertAlphaEqualMsg"@.len() != "/"@.len());
        }
    }
    lemma_last_named_none(signature_part12(), "/"@);
    assert forall|j: int| 0 <= j < signature_part13().len() implies #[trigger] signature_part13()[j].name != "/"@ by {
        if j == 0 {
            reveal_strlit("assertEqualToResult");
            assert("assertEqualToResult"@.len() != "/"@.len());
        } else if j == 1 {
            reveal_strlit("assertEqualToResultMsg");
            assert("assertEqualToResultMsg"@.len() != "/"@.len());
        } else if j == 2 {
            reveal_strlit("assertAlphaEqualToResult");
            assert("assertAlphaEqualToResult"@.len() != "/"@.len());
        } else if j == 3 {
            reveal_strlit("assertAlphaEqualToResultMsg");
            assert("assertAlphaEqualToResultMsg"@.len() != "/"@.len());
        }
    }
    lemma_last_named_none(signature_part13(), "/"@);
    lemma_found_base(0, "/"@, 3);
    lemma_found_step(1, "/"@, signature_prefix(0).len() - signature_part(0).len() + 3);
    lemma_found_step(2, "/"@, signature_prefix(0).len() - signature_part(0).len() + 3);
    lemma_found_step(3, "/"@, signature_prefix(0).len() - signature_part(0).len() + 3);
    lemma_found_step(4, "/"@, signature_prefix(0).len() - signature_part(0).len() + 3);
    lemma_found_step(5, "/"@, signature_prefix(0).len() - signature_part(0).len() + 3);
    lemma_found_step(6, "/"@, signature_prefix(0).len() - signature_part(0).len() + 3);
    lemma_found_step(7, "/"@, signature_prefix(0).len() - signature_part(0).len() + 3);
    lemma_found_step(8, "/"@, signature_prefix(0).len() - signature_part(0).len() + 3);
    lemma_found_step(9, "/"@, signature_prefix(0).len() - signature_part(0).len() + 3);
    lemma_found_step(10, "/"@, signature_prefix(0).len() - signature_part(0).len() + 3);
    lemma_found_step(11, "/"@, signature_prefix(0).len() - signature_part(0).len() + 3);
    lemma_found_step(12, "/"@, signature_prefix(0).len() - signature_part(0).len() + 3);
    lemma_found_step(13, "/"@, signature_prefix(0).len() - signature_part(0).len() + 3);
    lemma_table_prefix();
}

/// The registry holds `%` once, as entry 4 of part 1.
proof fn lemma_registered_rem()
    ensures
        signature_of("%"@) == Some(signature_part0()[4]),
{
    broadcast use vstd::string::group_string_axioms;

    reveal_strlit("%");
    assert forall|j: int| 5 <= j < signature_part0().len() implies #[trigger] signature_part0()[j].name != "%"@ by {
        if j == 5 {
            reveal_strlit("min");
            assert("min"@.len() != "%"@.len());
        } else if j == 6 {
            reveal_strlit("max");
            assert("max"@.len() != "%"@.len());
        } else if j == 7 {
            reveal_strlit("/safe");
            assert("/safe"@.len() != "%"@.len());
        } else if j == 8 {
            reveal_strlit("clamp");
            assert("clamp"@.len() != "%"@.len());
        } else if j == 9 {
            reveal_strlit("floor-div");
            assert("floor-div"@.len() != "%"@.len());
        } else if j == 10 {
            reveal_strlit("abs");
            assert("abs"@.len() != "%"@.len());
        }
    }
    lemma_last_named_at(signature_part0(), "%"@, 4);
    assert forall|j: int| 0 <= j < signature_part1().len() implies #[trigger] signature_part1()[j].name != "%"@ by {
        if j == 0 {
            reveal_strlit("abs-math");
            assert("abs-math"@.len() != "%"@.len());
        } else if j == 1 {
            reveal_strlit("floor");
            assert("floor"@.len() != "%"@.len());
        } else if j == 2 {
            reveal_strlit("floor-math");
            assert("floor-math"@.len() != "%"@.len());
        } else if j == 3 {
            reveal_strlit("ceil");
            assert("ceil"@.len() != "%"@.len());
        } else if j == 4 {
            reveal_strlit("ceil-math");
            assert("ceil-math"@.len() != "%"@.len());
        } else if j == 5 {
            reveal_strlit("round");
            assert("round"@.len() != "%"@.len());
        } else if j == 6 {
            reveal_strlit("round-math");
            assert("round-math"@.len() != "%"@.len());
        } else if j == 7 {
            reveal_strlit("sqrt");
            assert("sqrt"@.len() != "%"@.len());
        } else if j == 8 {
            reveal_strlit("sqrt-math");
            assert("sqrt-math"@.len() != "%"@.len());
        } else if j == 9 {
            reveal_strlit("trunc");
            assert("trunc"@.len() != "%"@.len());
        } else if j == 10 {
            reveal_strlit("trunc-math");
            assert("trunc-math"@.len() != "%"@.len());
        }
    }
    lemma_last_named_none(signature_part1(), "%"@);
    assert forall|j: int| 0 <= j < signature_part2().len() implies #[trigger] signature_part2()[j].name != "%"@ by {
        if j == 0 {
            reveal_strlit("pow");
            assert("pow"@.len() != "%"@.len());
        } else if j == 1 {
            reveal_strlit("pow-math");
            assert("pow-math"@.len() != "%"@.len());
        } else if j == 2 {
            reveal_strlit("log");
            assert("log"@.len() != "%"@.len());
        } else if j == 3 {
            reveal_strlit("log-math");
            assert("log-math"@.len() != "%"@.len());
        } else if j == 4 {
            reveal_strlit("sin-math");
            assert("sin-math"@.len() != "%"@.len());
        } else if j == 5 {
            reveal_strlit("cos-math");
            assert("cos-math"@.len() != "%"@.len());
        } else if j == 6 {
            reveal_strlit("tan-math");
            assert("tan-math"@.len() != "%"@.len());
        } else if j == 7 {
            reveal_strlit("asin-math");
            assert("asin-math"@.len() != "%"@.len());
        } else if j == 8 {
            reveal_strlit("acos-math");
            assert("acos-math"@.len() != "%"@.len());
        } else if j == 9 {
            reveal_strlit("atan-math");
            assert("atan-math"@.len() != "%"@.len());
        } else if j == 10 {
            reveal_strlit("isnan-math");
            assert("isnan-math"@.len() != "%"@.len());
        }
    }
    lemma_last_named_none(signature_part2(), "%"@);
    assert forall|j: int| 0 <= j < signature_part3().len() implies #[trigger] signature_part3()[j].name != "%"@ by {
        if j == 0 {
            reveal_strlit("isinf-math");
            assert("isinf-math"@.len() != "%"@.len());
        } else if j == 1 {
            reveal_strlit("<");
            assert("<"@[0] != "%"@[0]);
        } else if j == 2 {
            reveal_strlit("<=");
            assert("<="@.len() != "%"@.len());
        } else if j == 3 {
            reveal_strlit(">");
            assert(">"@[0] != "%"@[0]);
        } else if j == 4 {
            reveal_strlit(">=");
            assert(">="@.len() != "%"@.len());
        } else if j == 5 {
            reveal_strlit("==");
            assert("=="@.len() != "%"@.len());
        } else if j == 6 {
            reveal_strlit("!=");
            assert("!="@.len() != "%"@.len());
        } else if j == 7 {
            reveal_strlit("and");
            assert("and"@.len() != "%"@.len());
        } else if j == 8 {
            reveal_strlit("or");
            assert("or"@.len() != "%"@.len());
        } else if j == 9 {
            reveal_strlit("not");
            assert("not"@.len() != "%"@.len());
        } else if j == 10 {
            reveal_strlit("xor");
            assert("xor"@.len() != "%"@.len());
        }
    }
    lemma_last_named_none(signature_part3(), "%"@);
    assert forall|j: int| 0 <= j < signature_part4().len() implies #[trigger] signature_part4()[j].name != "%"@ by {
        if j == 0 {
            reveal_strlit("if");
            assert("if"@.len() != "%"@.len());
        } else if j == 1 {
            reveal_strlit("case");
            assert("case"@.len() != "%"@.len());
        } else if j == 2 {
            reveal_strlit("switch");
            assert("switch"@.len() != "%"@.len());
        } else if j == 3 {
            reveal_strlit("if-equal");
            assert("if-equal"@.len() != "%"@.len());
        } else if j == 4 {
            reveal_strlit("if-reducible");
            assert("if-reducible"@.len() != "%"@.len());
        } else if j == 5 {
            reveal_strlit("let");
            assert("let"@.len() != "%"@.len());
        } else if j == 6 {
            reveal_strlit("let*");
            assert("let*"@.len() != "%"@.len());
        } else if j == 7 {
            reveal_strlit("unify");
            assert("unify"@.len() != "%"@.len());
        } else if j == 8 {
            reveal_strlit("function");
            assert("function"@.len() != "%"@.len());
        } else if j == 9 {
            reveal_strlit("return");
            assert("return"@.len() != "%"@.len());
        } else if j == 10 {
            reveal_strlit("chain");
            assert("chain"@.len() != "%"@.len());
        }
    }
    lemma_last_named_none(signature_part4(), "%"@);
    assert forall|j: int| 0 <= j < signature_part5().len() implies #[trigger] signature_part5()[j].name != "%"@ by {
        if j == 0 {
            reveal_strlit("=");
            assert("="@[0] != "%"@[0]);
        } else if j == 1 {
            reveal_strlit(":");
            assert(":"@[0] != "%"@[0]);
        } else if j == 2 {
            reveal_strlit("match");
            assert("match"@.len() != "%"@.len());
        } else if j == 3 {
            reveal_strlit("match-or");
            assert("match-or"@.len() != "%"@.len());
        } else if j == 4 {
            reveal_strlit("new-space");
            assert("new-space"@.len() != "%"@.len());
        } else if j == 5 {
            reveal_strlit("add-atom");
            assert("add-atom"@.len() != "%"@.len());
        } else if j == 6 {
            reveal_strlit("remove-atom");
            assert("remove-atom"@.len() != "%"@.len());
        } else if j == 7 {
            reveal_strlit("get-atoms");
            assert("get-atoms"@.len() != "%"@.len());
        } else if j == 8 {
            reveal_strlit("collapse");
            assert("collapse"@.len() != "%"@.len());
        } else if j == 9 {
            reveal_strlit("collapse-bind");
            assert("collapse-bind"@.len() != "%"@.len());
        } else if j == 10 {
            reveal_strlit("car-atom");
            assert("car-atom"@.len() != "%"@.len());
        }
    }
    lemma_last_named_none(signature_part5(), "%"@);
    assert forall|j: int| 0 <= j < signature_part6().len() implies #[trigger] signature_part6()[j].name != "%"@ by {
        if j == 0 {
            reveal_strlit("cdr-atom");
            assert("cdr-atom"@.len() != "%"@.len());
        } else if j == 1 {
            reveal_strlit("cons-atom");
            assert("cons-atom"@.len() != "%"@.len());
        } else if j == 2 {
            reveal_strlit("decons-atom");
            assert("decons-atom"@.len() != "%"@.len());
        } else if j == 3 {
            reveal_strlit("size-atom");
            assert("size-atom"@.len() != "%"@.len());
        } else if j == 4 {
            reveal_strlit("max-atom");
            assert("max-atom"@.len() != "%"@.len());
        } else if j == 5 {
            reveal_strlit("min-atom");
            assert("min-atom"@.len() != "%"@.len());
        } else if j == 6 {
            reveal_strlit("index-atom");
            assert("index-atom"@.len() != "%"@.len());
        } else if j == 7 {
            reveal_strlit("empty");
            assert("empty"@.len() != "%"@.len());
        } else if j == 8 {
            reveal_strlit("tuple-concat");
            assert("tuple-concat"@.len() != "%"@.len());
        } else if j == 9 {
            reveal_strlit("tuple-count");
            assert("tuple-count"@.len() != "%"@.len());
        } else if j == 10 {
            reveal_strlit("without");
            assert("without"@.len() != "%"@.len());
        }
    }
    lemma_last_named_none(signature_part6(), "%"@);
    assert forall|j: int| 0 <= j < signature_part7().len() implies #[trigger] signature_part7()[j].name != "%"@ by {
        if j == 0 {
            reveal_strlit("element-of");
            assert("element-of"@.len() != "%"@.len());
        } else if j == 1 {
            reveal_strlit("range");
            assert("range"@.len() != "%"@.len());
        } else if j == 2 {
            reveal_strlit("reverse-atom");
            assert("reverse-atom"@.len() != "%"@.len());
        } else if j == 3 {
            reveal_strlit("flatten-atom");
            assert("flatten-atom"@.len() != "%"@.len());
        } else if j == 4 {
            reveal_strlit("zip-atom");
            assert("zip-atom"@.len() != "%"@.len());
        } else if j == 5 {
            reveal_strlit("take-atom");
            assert("take-atom"@.len() != "%"@.len());
        } else if j == 6 {
            reveal_strlit("drop-atom");
            assert("drop-atom"@.len() != "%"@.len());
        } else if j == 7 {
            reveal_strlit("map-atom");
            assert("map-atom"@.len() != "%"@.len());
        } else if j == 8 {
            reveal_strlit("filter-atom");
            assert("filter-atom"@.len() != "%"@.len());
        } else if j == 9 {
            reveal_strlit("foldl-atom");
            assert("foldl-atom"@.len() != "%"@.len());
        } else if j == 10 {
            reveal_strlit("sort-tuple");
            assert("sort-tuple"@.len() != "%"@.len());
        }
    }
    lemma_last_named_none(signature_part7(), "%"@);
    assert forall|j: int| 0 <= j < signature_part8().len() implies #[trigger] signature_part8()[j].name != "%"@ by {
        if j == 0 {
            reveal_strlit("best-candidate");
            assert("best-candidate"@.len() != "%"@.len());
        } else if j == 1 {
            reveal_strlit("unique-atom");
            assert("unique-atom"@.len() != "%"@.len());
        } else if j == 2 {
            reveal_strlit("union-atom");
            assert("union-atom"@.len() != "%"@.len());
        } else if j == 3 {
            reveal_strlit("intersection-atom");
            assert("intersection-atom"@.len() != "%"@.len());
        } else if j == 4 {
            reveal_strlit("subtraction-atom");
            assert("subtraction-atom"@.len() != "%"@.len());
        } else if j == 5 {
            reveal_strlit("superpose");
            assert("superpose"@.len() != "%"@.len());
        } else if j == 6 {
            reveal_strlit("amb");
            assert("amb"@.len() != "%"@.len());
        } else if j == 7 {
            reveal_strlit("guard");
            assert("guard"@.len() != "%"@.len());
        } else if j == 8 {
            reveal_strlit("commit");
            assert("commit"@.len() != "%"@.len());
        } else if j == 9 {
            reveal_strlit("backtrack");
            assert("backtrack"@.len() != "%"@.len());
        } else if j == 10 {
            reveal_strlit("quote");
            assert("quote"@.len() != "%"@.len());
        }
    }
    lemma_last_named_none(signature_part8(), "%"@);
    assert forall|j: int| 0 <= j < signature_part9().len() implies #[trigger] signature_part9()[j].name != "%"@ by {
        if j == 0 {
            reveal_strlit("unquote");
            assert("unquote"@.len() != "%"@.len());
        } else if j == 1 {
            reveal_strlit("eval");
            assert("eval"@.len() != "%"@.len());
        } else if j == 2 {
            reveal_strlit("!");
            assert("!"@[0] != "%"@[0]);
        } else if j == 3 {
            reveal_strlit("sealed");
            assert("sealed"@.len() != "%"@.len());
        } else if j == 4 {
            reveal_strlit("atom-subst");
            assert("atom-subst"@.len() != "%"@.len());
        } else if j == 5 {
            reveal_strlit("nop");
            assert("nop"@.len() != "%"@.len());
        } else if j == 6 {
            reveal_strlit("get-type");
            assert("get-type"@.len() != "%"@.len());
        } else if j == 7 {
            reveal_strlit("check-type");
            assert("check-type"@.len() != "%"@.len());
        } else if j == 8 {
            reveal_strlit("get-metatype");
            assert("get-metatype"@.len() != "%"@.len());
        } else if j == 9 {
            reveal_strlit("validate-atom");
            assert("validate-atom"@.len() != "%"@.len());
        } else if j == 10 {
            reveal_strlit("get-type-space");
            assert("get-type-space"@.len() != "%"@.len());
        }
    }
    lemma_last_named_none(signature_part9(), "%"@);
    assert forall|j: int| 0 <= j < signature_part10().len() implies #[trigger] signature_part10()[j].name != "%"@ by {
        if j == 0 {
            reveal_strlit("is-function");
            assert("is-function"@.len() != "%"@.len());
        } else if j == 1 {
            reveal_strlit("type-cast");
            assert("type-cast"@.len() != "%"@.len());
        } else if j == 2 {
            reveal_strlit("metta");
            assert("metta"@.len() != "%"@.len());
        } else if j == 3 {
            reveal_strlit("match-type-or");
            assert("match-type-or"@.len() != "%"@.len());
        } else if j == 4 {
            reveal_strlit("first-from-pair");
            assert("first-from-pair"@.len() != "%"@.len());
        } else if j == 5 {
            reveal_strlit(":<");
            assert(":<"@.len() != "%"@.len());
        } else if j == 6 {
            reveal_strlit("Error");
            assert("Error"@.len() != "%"@.len());
        } else if j == 7 {
            reveal_strlit("error");
            assert("error"@.len() != "%"@.len());
        } else if j == 8 {
            reveal_strlit("is-error");
            assert("is-error"@.len() != "%"@.len());
        } else if j == 9 {
            reveal_strlit("catch");
            assert("catch"@.len() != "%"@.len());
        } else if j == 10 {
            reveal_strlit("new-state");
            assert("new-state"@.len() != "%"@.len());
        }
    }
    lemma_last_named_none(signature_part10(), "%"@);
    assert forall|j: int| 0 <= j < signature_part11().len() implies #[trigger] signature_part11()[j].name != "%"@ by {
        if j == 0 {
            reveal_strlit("get-state");
            assert("get-state"@.len() != "%"@.len());
        } else if j == 1 {
            reveal_strlit("change-state!");
            assert("change-state!"@.len() != "%"@.len());
        } else if j == 2 {
            reveal_strlit("println!");
            assert("println!"@.len() != "%"@.len());
        } else if j == 3 {
            reveal_strlit("trace!");
            assert("trace!"@.len() != "%"@.len());
        } else if j == 4 {
            reveal_strlit("repr");
            assert("repr"@.len() != "%"@.len());
        } else if j == 5 {
            reveal_strlit("format-args");
            assert("format-args"@.len() != "%"@.len());
        } else if j == 6 {
            reveal_strlit("=alpha");
            assert("=alpha"@.len() != "%"@.len());
        } else if j == 7 {
            reveal_strlit("include");
            assert("include"@.len() != "%"@.len());
        } else if j == 8 {
            reveal_strlit("import!");
            assert("import!"@.len() != "%"@.len());
        } else if j == 9 {
            reveal_strlit("bind!");
            assert("bind!"@.len() != "%"@.len());
        } else if j == 10 {
            reveal_strlit("mod-space!");
            assert("mod-space!"@.len() != "%"@.len());
        }
    }
    lemma_last_named_none(signature_part11(), "%"@);
    assert forall|j: int| 0 <= j < signature_part12().len() implies #[trigger] signature_part12()[j].name != "%"@ by {
        if j == 0 {
            reveal_strlit("print-mods!");
            assert("print-mods!"@.len() != "%"@.len());
        } else if j == 1 {
            reveal_strlit("pragma!");
            assert("pragma!"@.len() != "%"@.len());
        } else if j == 2 {
            reveal_strlit("new-memo");
            assert("new-memo"@.len() != "%"@.len());
        } else if j == 3 {
            reveal_strlit("memo");
            assert("memo"@.len() != "%"@.len());
        } else if j == 4 {
            reveal_strlit("memo-first");
            assert("memo-first"@.len() != "%"@.len());
        } else if j == 5 {
            reveal_strlit("clear-memo!");
            assert("clear-memo!"@.len() != "%"@.len());
        } else if j == 6 {
            reveal_strlit("memo-stats");
            assert("memo-stats"@.len() != "%"@.len());
        } else if j == 7 {
            reveal_strlit("assertEqual");
            assert("assertEqual"@.len() != "%"@.len());
        } else if j == 8 {
            reveal_strlit("assertEqualMsg");
            assert("assertEqualMsg"@.len() != "%"@.len());
        } else if j == 9 {
            reveal_strlit("assertAlphaEqual");
            assert("assertAlphaEqual"@.len() != "%"@.len());
        } else if j == 10 {
            reveal_strlit("assertAlphaEqualMsg");
            assert("assertAlphaEqualMsg"@.len() != "%"@.len());
        }
    }
    lemma_last_named_none(signature_part12(), "%"@);
    assert forall|j: int| 0 <= j < signature_part13().len() implies #[trigger] signature_part13()[j].name != "%"@ by {
        if j == 0 {
            reveal_strlit("assertEqualToResult");
            assert("assertEqualToResult"@.len() != "%"@.len());
        } else if j == 1 {
            reveal_strlit("assertEqualToResultMsg");
            assert("assertEqualToResultMsg"@.len() != "%"@.len());
        } else if j == 2 {
            reveal_strlit("assertAlphaEqualToResult");
            assert("assertAlphaEqualToResult"@.len() != "%"@.len());
        } else if j == 3 {
            reveal_strlit("assertAlphaEqualToResultMsg");
            assert("assertAlphaEqualToResultMsg"@.len() != "%"@.len());
        }
    }
    lemma_last_named_none(signature_part13(), "%"@);
    lemma_found_base(0, "%"@, 4);
    lemma_found_step(1, "%"@, signature_prefix(0).len() - signature_part(0).len() + 4);
    lemma_found_step(2, "%"@, signature_prefix(0).len() - signature_part(0).len() + 4);
    lemma_found_step(3, "%"@, signature_prefix(0).len() - signature_part(0).len() + 4);
    lemma_found_step(4, "%"@, signature_prefix(0).len() - signature_part(0).len() + 4);
    lemma_found_step(5, "%"@, signature_prefix(0).len() - signature_part(0).len() + 4);
    lemma_found_step(6, "%"@, signature_prefix(0).len() - signature_part(0).len() + 4);
    lemma_found_step(7, "%"@, signature_prefix(0).len() - signature_part(0).len() + 4);
    lemma_found_step(8, "%"@, signature_prefix(0).len() - signature_part(0).len() + 4);
    lemma_found_step(9, "%"@, signature_prefix(0).len() - signature_part(0).len() + 4);
    lemma_found_step(10, "%"@, signature_prefix(0).len() - signature_part(0).len() + 4);
    lemma_found_step(11, "%"@, signature_prefix(0).len() - signature_part(0).len() + 4);
    lemma_found_step(12, "%"@, signature_prefix(0).len() - signature_part(0).len() + 4);
    lemma_found_step(13, "%"@, signature_prefix(0).len() - signature_part(0).len() + 4);
    lemma_table_prefix();
}

/// The registry holds `pow` once, as entry 0 of part 3.
proof fn lemma_registered_pow()
    ensures
        signature_of("pow"@) == Some(signature_part2()[0]),
{
    broadcast use vstd::string::group_string_axioms;

    reveal_strlit("pow");
    assert forall|j: int| 1 <= j < signature_part2().len() implies #[trigger] signature_part2()[j].name != "pow"@ by {
        if j == 1 {
            reveal_strlit("pow-math");
            assert("pow-math"@.len() != "pow"@.len());
        } else if j == 2 {
            reveal_strlit("log");
            assert("log"@[0] != "pow"@[0]);
        } else if j == 3 {
            reveal_strlit("log-math");
            assert("log-math"@.len() != "pow"@.len());
        } else if j == 4 {
            reveal_strlit("sin-math");
            assert("sin-math"@.len() != "pow"@.len());
        } else if j == 5 {
            reveal_strlit("cos-math");
            assert("cos-math"@.len() != "pow"@.len());
        } else if j == 6 {
            reveal_strlit("tan-math");
            assert("tan-math"@.len() != "pow"@.len());
        } else if j == 7 {
            reveal_strlit("asin-math");
            assert("asin-math"@.len() != "pow"@.len());
        } else if j == 8 {
            reveal_strlit("acos-math");
            assert("acos-math"@.len() != "pow"@.len());
        } else if j == 9 {
            reveal_strlit("atan-math");
            assert("atan-math"@.len() != "pow"@.len());
        } else if j == 10 {
            reveal_strlit("isnan-math");
            assert("isnan-math"@.len() != "pow"@.len());
        }
    }
    lemma_last_named_at(signature_part2(), "pow"@, 0);
    assert forall|j: int| 0 <= j < signature_part3().len() implies #[trigger] signature_part3()[j].name != "pow"@ by {
        if j == 0 {
            reveal_strlit("isinf-math");
            assert("isinf-math"@.len() != "pow"@.len());
        } else if j == 1 {
            reveal_strlit("<");
            assert("<"@.len() != "pow"@.len());
        } else if j == 2 {
            reveal_strlit("<=");
            assert("<="@.len() != "pow"@.len());
        } else if j == 3 {
            reveal_strlit(">");
            assert(">"@.len() != "pow"@.len());
        } else if j == 4 {
            reveal_strlit(">=");
            assert(">="@.len() != "pow"@.len());
        } else if j == 5 {
            reveal_strlit("==");
            assert("=="@.len() != "pow"@.len());
        } else if j == 6 {
            reveal_strlit("!=");
            assert("!="@.len() != "pow"@.len());
        } else if j == 7 {
            reveal_strlit("and");
            assert("and"@[0] != "pow"@[0]);
        } else if j == 8 {
            reveal_strlit("or");
            assert("or"@.len() != "pow"@.len());
        } else if j == 9 {
            reveal_strlit("not");
            assert("not"@[0] != "pow"@[0]);
        } else if j == 10 {
            reveal_strlit("xor");
            assert("xor"@[0] != "pow"@[0]);
        }
    }
    lemma_last_named_none(signature_part3(), "pow"@);
    assert forall|j: int| 0 <= j < signature_part4().len() implies #[trigger] signature_part4()[j].name != "pow"@ by {
        if j == 0 {
            reveal_strlit("if");
            assert("if"@.len() != "pow"@.len());
        } else if j == 1 {
            reveal_strlit("case");
            assert("case"@.len() != "pow"@.len());
        } else if j == 2 {
            reveal_strlit("switch");
            assert("switch"@.len() != "pow"@.len());
        } else if j == 3 {
            reveal_strlit("if-equal");
            assert("if-equal"@.len() != "pow"@.len());
        } else if j == 4 {
            reveal_strlit("if-reducible");
            assert("if-reducible"@.len() != "pow"@.len());
        } else if j == 5 {
            reveal_strlit("let");
            assert("let"@[0] != "pow"@[0]);
        } else if j == 6 {
            reveal_strlit("let*");
            assert("let*"@.len() != "pow"@.len());
        } else if j == 7 {
            reveal_strlit("unify");
            assert("unify"@.len() != "pow"@.len());
        } else if j == 8 {
            reveal_strlit("function");
            assert("function"@.len() != "pow"@.len());
        } else if j == 9 {
            reveal_strlit("return");
            assert("return"@.len() != "pow"@.len());
        } else if j == 10 {
            reveal_strlit("chain");
            assert("chain"@.len() != "pow"@.len());
        }
    }
    lemma_last_named_none(signature_part4(), "pow"@);
    assert forall|j: int| 0 <= j < signature_part5().len() implies #[trigger] signature_part5()[j].name != "pow"@ by {
        if j == 0 {
            reveal_strlit("=");
            assert("="@.len() != "pow"@.len());
        } else if j == 1 {
            reveal_strlit(":");
            assert(":"@.len() != "pow"@.len());
        } else if j == 2 {
            reveal_strlit("match");
            assert("match"@.len() != "pow"@.len());
        } else if j == 3 {
            reveal_strlit("match-or");
            assert("match-or"@.len() != "pow"@.len());
        } else if j == 4 {
            reveal_strlit("new-space");
            assert("new-space"@.len() != "pow"@.len());
        } else if j == 5 {
            reveal_strlit("add-atom");
            assert("add-atom"@.len() != "pow"@.len());
        } else if j == 6 {
            reveal_strlit("remove-atom");
            assert("remove-atom"@.len() != "pow"@.len());
        } else if j == 7 {
            reveal_strlit("get-atoms");
            assert("get-atoms"@.len() != "pow"@.len());
        } else if j == 8 {
            reveal_strlit("collapse");
            assert("collapse"@.len() != "pow"@.len());
        } else if j == 9 {
            reveal_strlit("collapse-bind");
            assert("collapse-bind"@.len() != "pow"@.len());
        } else if j == 10 {
            reveal_strlit("car-atom");
            assert("car-atom"@.len() != "pow"@.len());
        }
    }
    lemma_last_named_none(signature_part5(), "pow"@);
    assert forall|j: int| 0 <= j < signature_part6().len() implies #[trigger] signature_part6()[j].name != "pow"@ by {
        if j == 0 {
            reveal_strlit("cdr-atom");
            assert("cdr-atom"@.len() != "pow"@.len());
        } else if j == 1 {
            reveal_strlit("cons-atom");
            assert("cons-atom"@.len() != "pow"@.len());
        } else if j == 2 {
            reveal_strlit("decons-atom");
            assert("decons-atom"@.len() != "pow"@.len());
        } else if j == 3 {
            reveal_strlit("size-atom");
            assert("size-atom"@.len() != "pow"@.len());
        } else if j == 4 {
            reveal_strlit("max-atom");
            assert("max-atom"@.len() != "pow"@.len());
        } else if j == 5 {
            reveal_strlit("min-atom");
            assert("min-atom"@.len() != "pow"@.len());
        } else if j == 6 {
            reveal_strlit("index-atom");
            assert("index-atom"@.len() != "pow"@.len());
        } else if j == 7 {
            reveal_strlit("empty");
            assert("empty"@.len() != "pow"@.len());
        } else if j == 8 {
            reveal_strlit("tuple-concat");
            assert("tuple-concat"@.len() != "pow"@.len());
        } else if j == 9 {
            reveal_strlit("tuple-count");
            assert("tuple-count"@.len() != "pow"@.len());
        } else if j == 10 {
            reveal_strlit("without");
            assert("without"@.len() != "pow"@.len());
        }
    }
    lemma_last_named_none(signature_part6(), "pow"@);
    assert forall|j: int| 0 <= j < signature_part7().len() implies #[trigger] signature_part7()[j].name != "pow"@ by {
        if j == 0 {
            reveal_strlit("element-of");
            assert("element-of"@.len() != "pow"@.len());
        } else if j == 1 {
            reveal_strlit("range");
            assert("range"@.len() != "pow"@.len());
        } else if j == 2 {
            reveal_strlit("reverse-atom");
            assert("reverse-atom"@.len() != "pow"@.len());
        } else if j == 3 {
            reveal_strlit("flatten-atom");
            assert("flatten-atom"@.len() != "pow"@.len());
        } else if j == 4 {
            reveal_strlit("zip-atom");
            assert("zip-atom"@.len() != "pow"@.len());
        } else if j == 5 {
            reveal_strlit("take-atom");
            assert("take-atom"@.len() != "pow"@.len());
        } else if j == 6 {
            reveal_strlit("drop-atom");
            assert("drop-atom"@.len() != "pow"@.len());
        } else if j == 7 {
            reveal_strlit("map-atom");
            assert("map-atom"@.len() != "pow"@.len());
        } else if j == 8 {
            reveal_strlit("filter-atom");
            assert("filter-atom"@.len() != "pow"@.len());
        } else if j == 9 {
            reveal_strlit("foldl-atom");
            assert("foldl-atom"@.len() != "pow"@.len());
        } else if j == 10 {
            reveal_strlit("sort-tuple");
            assert("sort-tuple"@.len() != "pow"@.len());
        }
    }
    lemma_last_named_none(signature_part7(), "pow"@);
    assert forall|j: int| 0 <= j < signature_part8().len() implies #[trigger] signature_part8()[j].name != "pow"@ by {
        if j == 0 {
            reveal_strlit("best-candidate");
            assert("best-candidate"@.len() != "pow"@.len());
        } else if j == 1 {
            reveal_strlit("unique-atom");
            assert("unique-atom"@.len() != "pow"@.len());
        } else if j == 2 {
            reveal_strlit("union-atom");
            assert("union-atom"@.len() != "pow"@.len());
        } else if j == 3 {
            reveal_strlit("intersection-atom");
            assert("intersection-atom"@.len() != "pow"@.len());
        } else if j == 4 {
            reveal_strlit("subtraction-atom");
            assert("subtraction-atom"@.len() != "pow"@.len());
        } else if j == 5 {
            reveal_strlit("superpose");
            assert("superpose"@.len() != "pow"@.len());
        } else if j == 6 {
            reveal_strlit("amb");
            assert("amb"@[0] != "pow"@[0]);
        } else if j == 7 {
            reveal_strlit("guard");
            assert("guard"@.len() != "pow"@.len());
        } else if j == 8 {
            reveal_strlit("commit");
            assert("commit"@.len() != "pow"@.len());
        } else if j == 9 {
            reveal_strlit("backtrack");
            assert("backtrack"@.len() != "pow"@.len());
        } else if j == 10 {
            reveal_strlit("quote");
            assert("quote"@.len() != "pow"@.len());
        }
    }
    lemma_last_named_none(signature_part8(), "pow"@);
    assert forall|j: int| 0 <= j < signature_part9().len() implies #[trigger] signature_part9()[j].name != "pow"@ by {
        if j == 0 {
            reveal_strlit("unquote");
            assert("unquote"@.len() != "pow"@.len());
        } else if j == 1 {
            reveal_strlit("eval");
            assert("eval"@.len() != "pow"@.len());
        } else if j == 2 {
            reveal_strlit("!");
            assert("!"@.len() != "pow"@.len());
        } else if j == 3 {
            reveal_strlit("sealed");
            assert("sealed"@.len() != "pow"@.len());
        } else if j == 4 {
            reveal_strlit("atom-subst");
            assert("atom-subst"@.len() != "pow"@.len());
        } else if j == 5 {
            reveal_strlit("nop");
            assert("nop"@[0] != "pow"@[0]);
        } else if j == 6 {
            reveal_strlit("get-type");
            assert("get-type"@.len() != "pow"@.len());
        } else if j == 7 {
            reveal_strlit("check-type");
            assert("check-type"@.len() != "pow"@.len());
        } else if j == 8 {
            reveal_strlit("get-metatype");
            assert("get-metatype"@.len() != "pow"@.len());
        } else if j == 9 {
            reveal_strlit("validate-atom");
            assert("validate-atom"@.len() != "pow"@.len());
        } else if j == 10 {
            reveal_strlit("get-type-space");
            assert("get-type-space"@.len() != "pow"@.len());
        }
    }
    lemma_last_named_none(signature_part9(), "pow"@);
    assert forall|j: int| 0 <= j < signature_part10().len() implies #[trigger] signature_part10()[j].name != "pow"@ by {
        if j == 0 {
            reveal_strlit("is-function");
            assert("is-function"@.len() != "pow"@.len());
        } else if j == 1 {
            reveal_strlit("type-cast");
            assert("type-cast"@.len() != "pow"@.len());
        } else if j == 2 {
            reveal_strlit("metta");
            assert("metta"@.len() != "pow"@.len());
        } else if j == 3 {
            reveal_strlit("match-type-or");
            assert("match-type-or"@.len() != "pow"@.len());
        } else if j == 4 {
            reveal_strlit("first-from-pair");
            assert("first-from-pair"@.len() != "pow"@.len());
        } else if j == 5 {
            reveal_strlit(":<");
            assert(":<"@.len() != "pow"@.len());
        } else if j == 6 {
            reveal_strlit("Error");
            assert("Error"@.len() != "pow"@.len());
        } else if j == 7 {
            reveal_strlit("error");
            assert("error"@.len() != "pow"@.len());
        } else if j == 8 {
            reveal_strlit("is-error");
            assert("is-error"@.len() != "pow"@.len());
        } else if j == 9 {
            reveal_strlit("catch");
            assert("catch"@.len() != "pow"@.len());
        } else if j == 10 {
            reveal_strlit("new-state");
            assert("new-state"@.len() != "pow"@.len());
        }
    }
    lemma_last_named_none(signature_part10(), "pow"@);
    assert forall|j: int| 0 <= j < signature_part11().len() implies #[trigger] signature_part11()[j].name != "pow"@ by {
        if j == 0 {
            reveal_strlit("get-state");
            assert("get-state"@.len() != "pow"@.len());
        } else if j == 1 {
            reveal_strlit("change-state!");
            assert("change-state!"@.len() != "pow"@.len());
        } else if j == 2 {
            reveal_strlit("println!");
            assert("println!"@.len() != "pow"@.len());
        } else if j == 3 {
            reveal_strlit("trace!");
            assert("trace!"@.len() != "pow"@.len());
        } else if j == 4 {
            reveal_strlit("repr");
            assert("repr"@.len() != "pow"@.len());
        } else if j == 5 {
            reveal_strlit("format-args");
            assert("format-args"@.len() != "pow"@.len());
        } else if j == 6 {
            reveal_strlit("=alpha");
            assert("=alpha"@.len() != "pow"@.len());
        } else if j == 7 {
            reveal_strlit("include");
            assert("include"@.len() != "pow"@.len());
        } else if j == 8 {
            reveal_strlit("import!");
            assert("import!"@.len() != "pow"@.len());
        } else if j == 9 {
            reveal_strlit("bind!");
            assert("bind!"@.len() != "pow"@.len());
        } else if j == 10 {
            reveal_strlit("mod-space!");
            assert("mod-space!"@.len() != "pow"@.len());
        }
    }
    lemma_last_named_none(signature_part11(), "pow"@);
    assert forall|j: int| 0 <= j < signature_part12().len() implies #[trigger] signature_part12()[j].name != "pow"@ by {
        if j == 0 {
            reveal_strlit("print-mods!");
            assert("print-mods!"@.len() != "pow"@.len());
        } else if j == 1 {
            reveal_strlit("pragma!");
            assert("pragma!"@.len() != "pow"@.len());
        } else if j == 2 {
            reveal_strlit("new-memo");
            assert("new-memo"@.len() != "pow"@.len());
        } else if j == 3 {
            reveal_strlit("memo");
            assert("memo"@.len() != "pow"@.len());
        } else if j == 4 {
            reveal_strlit("memo-first");
            assert("memo-first"@.len() != "pow"@.len());
        } else if j == 5 {
            reveal_strlit("clear-memo!");
            assert("clear-memo!"@.len() != "pow"@.len());
        } else if j == 6 {
            reveal_strlit("memo-stats");
            assert("memo-stats"@.len() != "pow"@.len());
        } else if j == 7 {
            reveal_strlit("assertEqual");
            assert("assertEqual"@.len() != "pow"@.len());
        } else if j == 8 {
            reveal_strlit("assertEqualMsg");
            assert("assertEqualMsg"@.len() != "pow"@.len());
        } else if j == 9 {
            reveal_strlit("assertAlphaEqual");
            assert("assertAlphaEqual"@.len() != "pow"@.len());
        } else if j == 10 {
            reveal_strlit("assertAlphaEqualMsg");
            assert("assertAlphaEqualMsg"@.len() != "pow"@.len());
        }
    }
    lemma_last_named_none(signature_part12(), "pow"@);
    assert forall|j: int| 0 <= j < signature_part13().len() implies #[trigger] signature_part13()[j].name != "pow"@ by {
        if j == 0 {
            reveal_strlit("assertEqualToResult");
            assert("assertEqualToResult"@.len() != "pow"@.len());
        } else if j == 1 {
            reveal_strlit("assertEqualToResultMsg");
            assert("assertEqualToResultMsg"@.len() != "pow"@.len());
        } else if j == 2 {
            reveal_strlit("assertAlphaEqualToResult");
            assert("assertAlphaEqualToResult"@.len() != "pow"@.len());
        } else if j == 3 {
            reveal_strlit("assertAlphaEqualToResultMsg");
            assert("assertAlphaEqualToResultMsg"@.len() != "pow"@.len());
        }
    }
    lemma_last_named_none(signature_part13(), "pow"@);
    lemma_found_base(2, "pow"@, 0);
    lemma_found_step(3, "pow"@, signature_prefix(2).len() - signature_part(2).len() + 0);
    lemma_found_step(4, "pow"@, signature_prefix(2).len() - signature_part(2).len() + 0);
    lemma_found_step(5, "pow"@, signature_prefix(2).len() - signature_part(2).len() + 0);
    lemma_found_step(6, "pow"@, signature_prefix(2).len() - signature_part(2).len() + 0);
    lemma_found_step(7, "pow"@, signature_prefix(2).len() - signature_part(2).len() + 0);
    lemma_found_step(8, "pow"@, signature_prefix(2).len() - signature_part(2).len() + 0);
    lemma_found_step(9, "pow"@, signature_prefix(2).len() - signature_part(2).len() + 0);
    lemma_found_step(10, "pow"@, signature_prefix(2).len() - signature_part(2).len() + 0);
    lemma_found_step(11, "pow"@, signature_prefix(2).len() - signature_part(2).len() + 0);
    lemma_found_step(12, "pow"@, signature_prefix(2).len() - signature_part(2).len() + 0);
    lemma_found_step(13, "pow"@, signature_prefix(2).len() - signature_part(2).len() + 0);
    lemma_table_prefix();
}

/// The registry holds `floor-div` once, as entry 9 of part 1.
proof fn lemma_registered_floor_div()
    ensures
        signature_of("floor-div"@) == Some(signature_part0()[9]),
{
    broadcast use vstd::string::group_string_axioms;

    reveal_strlit("floor-div");
    assert forall|j: int| 10 <= j < signature_part0().len() implies #[trigger] signature_part0()[j].name != "floor-div"@ by {
        if j == 10 {
            reveal_strlit("abs");
            assert("abs"@.len() != "floor-div"@.len());
        }
    }
    lemma_last_named_at(signature_part0(), "floor-div"@, 9);
    assert forall|j: int| 0 <= j < signature_part1().len() implies #[trigger] signature_part1()[j].name != "floor-div"@ by {
        if j == 0 {
            reveal_strlit("abs-math");
            assert("abs-math"@.len() != "floor-div"@.len());
        } else if j == 1 {
            reveal_strlit("floor");
            assert("floor"@.len() != "floor-div"@.len());
        } else if j == 2 {
            reveal_strlit("floor-math");
            assert("floor-math"@.len() != "floor-div"@.len());
        } else if j == 3 {
            reveal_strlit("ceil");
            assert("ceil"@.len() != "floor-div"@.len());
        } else if j == 4 {
            reveal_strlit("ceil-math");
            assert("ceil-math"@[0] != "floor-div"@[0]);
        } else if j == 5 {
            reveal_strlit("round");
            assert("round"@.len() != "floor-div"@.len());
        } else if j == 6 {
            reveal_strlit("round-math");
            assert("round-math"@.len() != "floor-div"@.len());
        } else if j == 7 {
            reveal_strlit("sqrt");
            assert("sqrt"@.len() != "floor-div"@.len());
        } else if j == 8 {
            reveal_strlit("sqrt-math");
            assert("sqrt-math"@[0] != "floor-div"@[0]);
        } else if j == 9 {
            reveal_strlit("trunc");
            assert("trunc"@.len() != "floor-div"@.len());
        } else if j == 10 {
            reveal_strlit("trunc-math");
            assert("trunc-math"@.len() != "floor-div"@.len());
        }
    }
    lemma_last_named_none(signature_part1(), "floor-div"@);
    assert forall|j: int| 0 <= j < signature_part2().len() implies #[trigger] signature_part2()[j].name != "floor-div"@ by {
        if j == 0 {
            reveal_strlit("pow");
            assert("pow"@.len() != "floor-div"@.len());
        } else if j == 1 {
            reveal_strlit("pow-math");
            assert("pow-math"@.len() != "floor-div"@.len());
        } else if j == 2 {
            reveal_strlit("log");
            assert("log"@.len() != "floor-div"@.len());
        } else if j == 3 {
            reveal_strlit("log-math");
            assert("log-math"@.len() != "floor-div"@.len());
        } else if j == 4 {
            reveal_strlit("sin-math");
            assert("sin-math"@.len() != "floor-div"@.len());
        } else if j == 5 {
            reveal_strlit("cos-math");
            assert("cos-math"@.len() != "floor-div"@.len());
        } else if j == 6 {
            reveal_strlit("tan-math");
            assert("tan-math"@.len() != "floor-div"@.len());
        } else if j == 7 {
            reveal_strlit("asin-math");
            assert("asin-math"@[0] != "floor-div"@[0]);
        } else if j == 8 {
            reveal_strlit("acos-math");
            assert("acos-math"@[0] != "floor-div"@[0]);
        } else if j == 9 {
            reveal_strlit("atan-math");
            assert("atan-math"@[0] != "floor-div"@[0]);
        } else if j == 10 {
            reveal_strlit("isnan-math");
            assert("isnan-math"@.len() != "floor-div"@.len());
        }
    }
    lemma_last_named_none(signature_part2(), "floor-div"@);
    assert forall|j: int| 0 <= j < signature_part3().len() implies #[trigger] signature_part3()[j].name != "floor-div"@ by {
        if j == 0 {
            reveal_strlit("isinf-math");
            assert("isinf-math"@.len() != "floor-div"@.len());
        } else if j == 1 {
            reveal_strlit("<");
            assert("<"@.len() != "floor-div"@.len());
        } else if j == 2 {
            reveal_strlit("<=");
            assert("<="@.len() != "floor-div"@.len());
        } else if j == 3 {
            reveal_strlit(">");
            assert(">"@.len() != "floor-div"@.len());
        } else if j == 4 {
            reveal_strlit(">=");
            assert(">="@.len() != "floor-div"@.len());
        } else if j == 5 {
            reveal_strlit("==");
            assert("=="@.len() != "floor-div"@.len());
        } else if j == 6 {
            reveal_strlit("!=");
            assert("!="@.len() != "floor-div"@.len());
        } else if j == 7 {
            reveal_strlit("and");
            assert("and"@.len() != "floor-div"@.len());
        } else if j == 8 {
            reveal_strlit("or");
            assert("or"@.len() != "floor-div"@.len());
        } else if j == 9 {
            reveal_strlit("not");
            assert("not"@.len() != "floor-div"@.len());
        } else if j == 10 {
            reveal_strlit("xor");
            assert("xor"@.len() != "floor-div"@.len());
        }
    }
    lemma_last_named_none(signature_part3(), "floor-div"@);
    assert forall|j: int| 0 <= j < signature_part4().len() implies #[trigger] signature_part4()[j].name != "floor-div"@ by {
        if j == 0 {
            reveal_strlit("if");
            assert("if"@.len() != "floor-div"@.len());
        } else if j == 1 {
            reveal_strlit("case");
            assert("case"@.len() != "floor-div"@.len());
        } else if j == 2 {
            reveal_strlit("switch");
            assert("switch"@.len() != "floor-div"@.len());
        } else if j == 3 {
            reveal_strlit("if-equal");
            assert("if-equal"@.len() != "floor-div"@.len());
        } else if j == 4 {
            reveal_strlit("if-reducible");
            assert("if-reducible"@.len() != "floor-div"@.len());
        } else if j == 5 {
            reveal_strlit("let");
            assert("let"@.len() != "floor-div"@.len());
        } else if j == 6 {
            reveal_strlit("let*");
            assert("let*"@.len() != "floor-div"@.len());
        } else if j == 7 {
            reveal_strlit("unify");
            assert("unify"@.len() != "floor-div"@.len());
        } else if j == 8 {
            reveal_strlit("function");
            assert("function"@.len() != "floor-div"@.len());
        } else if j == 9 {
            reveal_strlit("return");
            assert("return"@.len() != "floor-div"@.len());
        } else if j == 10 {
            reveal_strlit("chain");
            assert("chain"@.len() != "floor-div"@.len());
        }
    }
    lemma_last_named_none(signature_part4(), "floor-div"@);
    assert forall|j: int| 0 <= j < signature_part5().len() implies #[trigger] signature_part5()[j].name != "floor-div"@ by {
        if j == 0 {
            reveal_strlit("=");
            assert("="@.len() != "floor-div"@.len());
        } else if j == 1 {
            reveal_strlit(":");
            assert(":"@.len() != "floor-div"@.len());
        } else if j == 2 {
            reveal_strlit("match");
            assert("match"@.len() != "floor-div"@.len());
        } else if j == 3 {
            reveal_strlit("match-or");
            assert("match-or"@.len() != "floor-div"@.len());
        } else if j == 4 {
            reveal_strlit("new-space");
            assert("new-space"@[0] != "floor-div"@[0]);
        } else if j == 5 {
            reveal_strlit("add-atom");
            assert("add-atom"@.len() != "floor-div"@.len());
        } else if j == 6 {
            reveal_strlit("remove-atom");
            assert("remove-atom"@.len() != "floor-div"@.len());
        } else if j == 7 {
            reveal_strlit("get-atoms");
            assert("get-atoms"@[0] != "floor-div"@[0]);
        } else if j == 8 {
            reveal_strlit("collapse");
            assert("collapse"@.len() != "floor-div"@.len());
        } else if j == 9 {
            reveal_strlit("collapse-bind");
            assert("collapse-bind"@.len() != "floor-div"@.len());
        } else if j == 10 {
            reveal_strlit("car-atom");
            assert("car-atom"@.len() != "floor-div"@.len());
        }
    }
    lemma_last_named_none(signature_part5(), "floor-div"@);
    assert forall|j: int| 0 <= j < signature_part6().len() implies #[trigger] signature_part6()[j].name != "floor-div"@ by {
        if j == 0 {
            reveal_strlit("cdr-atom");
            assert("cdr-atom"@.len() != "floor-div"@.len());
        } else if j == 1 {
            reveal_strlit("cons-atom");
            assert("cons-atom"@[0] != "floor-div"@[0]);
        } else if j == 2 {
            reveal_strlit("decons-atom");
            assert("decons-atom"@.len() != "floor-div"@.len());
        } else if j == 3 {
            reveal_strlit("size-atom");
            assert("size-atom"@[0] != "floor-div"@[0]);
        } else if j == 4 {
            reveal_strlit("max-atom");
            assert("max-atom"@.len() != "floor-div"@.len());
        } else if j == 5 {
            reveal_strlit("min-atom");
            assert("min-atom"@.len() != "floor-div"@.len());
        } else if j == 6 {
            reveal_strlit("index-atom");
            assert("index-atom"@.len() != "floor-div"@.len());
        } else if j == 7 {
            reveal_strlit("empty");
            assert("empty"@.len() != "floor-div"@.len());
        } else if j == 8 {
            reveal_strlit("tuple-concat");
            assert("tuple-concat"@.len() != "floor-div"@.len());
        } else if j == 9 {
            reveal_strlit("tuple-count");
            assert("tuple-count"@.len() != "floor-div"@.len());
        } else if j == 10 {
            reveal_strlit("without");
            assert("without"@.len() != "floor-div"@.len());
        }
    }
    lemma_last_named_none(signature_part6(), "floor-div"@);
    assert forall|j: int| 0 <= j < signature_part7().len() implies #[trigger] signature_part7()[j].name != "floor-div"@ by {
        if j == 0 {
            reveal_strlit("element-of");
            assert("element-of"@.len() != "floor-div"@.len());
        } else if j == 1 {
            reveal_strlit("range");
            assert("range"@.len() != "floor-div"@.len());
        } else if j == 2 {
            reveal_strlit("reverse-atom");
            assert("reverse-atom"@.len() != "floor-div"@.len());
        } else if j == 3 {
            reveal_strlit("flatten-atom");
            assert("flatten-atom"@.len() != "floor-div"@.len());
        } else if j == 4 {
            reveal_strlit("zip-atom");
            assert("zip-atom"@.len() != "floor-div"@.len());
        } else if j == 5 {
            reveal_strlit("take-atom");
            assert("take-atom"@[0] != "floor-div"@[0]);
        } else if j == 6 {
            reveal_strlit("drop-atom");
            assert("drop-atom"@[0] != "floor-div"@[0]);
        } else if j == 7 {
            reveal_strlit("map-atom");
            assert("map-atom"@.len() != "floor-div"@.len());
        } else if j == 8 {
            reveal_strlit("filter-atom");
            assert("filter-atom"@.len() != "floor-div"@.len());
        } else if j == 9 {
            reveal_strlit("foldl-atom");
            assert("foldl-atom"@.len() != "floor-div"@.len());
        } else if j == 10 {
            reveal_strlit("sort-tuple");
            assert("sort-tuple"@.len() != "floor-div"@.len());
        }
    }
    lemma_last_named_none(signature_part7(), "floor-div"@);
    assert forall|j: int| 0 <= j < signature_part8().len() implies #[trigger] signature_part8()[j].name != "floor-div"@ by {
        if j == 0 {
            reveal_strlit("best-candidate");
            assert("best-candidate"@.len() != "floor-div"@.len());
        } else if j == 1 {
            reveal_strlit("unique-atom");
            assert("unique-atom"@.len() != "floor-div"@.len());
        } else if j == 2 {
            reveal_strlit("union-atom");
            assert("union-atom"@.len() != "floor-div"@.len());
        } else if j == 3 {
            reveal_strlit("intersection-atom");
            assert("intersection-atom"@.len() != "floor-div"@.len());
        } else if j == 4 {
            reveal_strlit("subtraction-atom");
            assert("subtraction-atom"@.len() != "floor-div"@.len());
        } else if j == 5 {
            reveal_strlit("superpose");
            assert("superpose"@[0] != "floor-div"@[0]);
        } else if j == 6 {
            reveal_strlit("amb");
            assert("amb"@.len() != "floor-div"@.len());
        } else if j == 7 {
            reveal_strlit("guard");
            assert("guard"@.len() != "floor-div"@.len());
        } else if j == 8 {
            reveal_strlit("commit");
            assert("commit"@.len() != "floor-div"@.len());
        } else if j == 9 {
            reveal_strlit("backtrack");
            assert("backtrack"@[0] != "floor-div"@[0]);
        } else if j == 10 {
            reveal_strlit("quote");
            assert("quote"@.len() != "floor-div"@.len());
        }
    }
    lemma_last_named_none(signature_part8(), "floor-div"@);
    assert forall|j: int| 0 <= j < signature_part9().len() implies #[trigger] signature_part9()[j].name != "floor-div"@ by {
        if j == 0 {
            reveal_strlit("unquote");
            assert("unquote"@.len() != "floor-div"@.len());
        } else if j == 1 {
            reveal_strlit("eval");
            assert("eval"@.len() != "floor-div"@.len());
        } else if j == 2 {
            reveal_strlit("!");
            assert("!"@.len() != "floor-div"@.len());
        } else if j == 3 {
            reveal_strlit("sealed");
            assert("sealed"@.len() != "floor-div"@.len());
        } else if j == 4 {
            reveal_strlit("atom-subst");
            assert("atom-subst"@.len() != "floor-div"@.len());
        } else if j == 5 {
            reveal_strlit("nop");
            assert("nop"@.len() != "floor-div"@.len());
        } else if j == 6 {
            reveal_strlit("get-type");
            assert("get-type"@.len() != "floor-div"@.len());
        } else if j == 7 {
            reveal_strlit("check-type");
            assert("check-type"@.len() != "floor-div"@.len());
        } else if j == 8 {
            reveal_strlit("get-metatype");
            assert("get-metatype"@.len() != "floor-div"@.len());
        } else if j == 9 {
            reveal_strlit("validate-atom");
            assert("validate-atom"@.len() != "floor-div"@.len());
        } else if j == 10 {
            reveal_strlit("get-type-space");
            assert("get-type-space"@.len() != "floor-div"@.len());
        }
    }
    lemma_last_named_none(signature_part9(), "floor-div"@);
    assert forall|j: int| 0 <= j < signature_part10().len() implies #[trigger] signature_part10()[j].name != "floor-div"@ by {
        if j == 0 {
            reveal_strlit("is-function");
            assert("is-function"@.len() != "floor-div"@.len());
        } else if j == 1 {
            reveal_strlit("type-cast");
            assert("type-cast"@[0] != "floor-div"@[0]);
        } else if j == 2 {
            reveal_strlit("metta");
            assert("metta"@.len() != "floor-div"@.len());
        } else if j == 3 {
            reveal_strlit("match-type-or");
            assert("match-type-or"@.len() != "floor-div"@.len());
        } else if j == 4 {
            reveal_strlit("first-from-pair");
            assert("first-from-pair"@.len() != "floor-div"@.len());
        } else if j == 5 {
            reveal_strlit(":<");
            assert(":<"@.len() != "floor-div"@.len());
        } else if j == 6 {
            reveal_strlit("Error");
            assert("Error"@.len() != "floor-div"@.len());
        } else if j == 7 {
            reveal_strlit("error");
            assert("error"@.len() != "floor-div"@.len());
        } else if j == 8 {
            reveal_strlit("is-error");
            assert("is-error"@.len() != "floor-div"@.len());
        } else if j == 9 {
            reveal_strlit("catch");
            assert("catch"@.len() != "floor-div"@.len());
        } else if j == 10 {
            reveal_strlit("new-state");
            assert("new-state"@[0] != "floor-div"@[0]);
        }
    }
    lemma_last_named_none(signature_part10(), "floor-div"@);
    assert forall|j: int| 0 <= j < signature_part11().len() implies #[trigger] signature_part11()[j].name != "floor-div"@ by {
        if j == 0 {
            reveal_strlit("get-state");
            assert("get-state"@[0] != "floor-div"@[0]);
        } else if j == 1 {
            reveal_strlit("change-state!");
            assert("change-state!"@.len() != "floor-div"@.len());
        } else if j == 2 {
            reveal_strlit("println!");
            assert("println!"@.len() != "floor-div"@.len());
        } else if j == 3 {
            reveal_strlit("trace!");
            assert("trace!"@.len() != "floor-div"@.len());
        } else if j == 4 {
            reveal_strlit("repr");
            assert("repr"@.len() != "floor-div"@.len());
        } else if j == 5 {
            reveal_strlit("format-args");
            assert("format-args"@.len() != "floor-div"@.len());
        } else if j == 6 {
            reveal_strlit("=alpha");
            assert("=alpha"@.len() != "floor-div"@.len());
        } else if j == 7 {
            reveal_strlit("include");
            assert("include"@.len() != "floor-div"@.len());
        } else if j == 8 {
            reveal_strlit("import!");
            assert("import!"@.len() != "floor-div"@.len());
        } else if j == 9 {
            reveal_strlit("bind!");
            assert("bind!"@.len() != "floor-div"@.len());
        } else if j == 10 {
            reveal_strlit("mod-space!");
            assert("mod-space!"@.len() != "floor-div"@.len());
        }
    }
    lemma_last_named_none(signature_part11(), "floor-div"@);
    assert forall|j: int| 0 <= j < signature_part12().len() implies #[trigger] signature_part12()[j].name != "floor-div"@ by {
        if j == 0 {
            reveal_strlit("print-mods!");
            assert("print-mods!"@.len() != "floor-div"@.len());
        } else if j == 1 {
            reveal_strlit("pragma!");
            assert("pragma!"@.len() != "floor-div"@.len());
        } else if j == 2 {
            reveal_strlit("new-memo");
            assert("new-memo"@.len() != "floor-div"@.len());
        } else if j == 3 {
            reveal_strlit("memo");
            assert("memo"@.len() != "floor-div"@.len());
        } else if j == 4 {
            reveal_strlit("memo-first");
            assert("memo-first"@.len() != "floor-div"@.len());
        } else if j == 5 {
            reveal_strlit("clear-memo!");
            assert("clear-memo!"@.len() != "floor-div"@.len());
        } else if j == 6 {
            reveal_strlit("memo-stats");
            assert("memo-stats"@.len() != "floor-div"@.len());
        } else if j == 7 {
            reveal_strlit("assertEqual");
            assert("assertEqual"@.len() != "floor-div"@.len());
        } else if j == 8 {
            reveal_strlit("assertEqualMsg");
            assert("assertEqualMsg"@.len() != "floor-div"@.len());
        } else if j == 9 {
            reveal_strlit("assertAlphaEqual");
            assert("assertAlphaEqual"@.len() != "floor-div"@.len());
        } else if j == 10 {
            reveal_strlit("assertAlphaEqualMsg");
            assert("assertAlphaEqualMsg"@.len() != "floor-div"@.len());
        }
    }
    lemma_last_named_none(signature_part12(), "floor-div"@);
    assert forall|j: int| 0 <= j < signature_part13().len() implies #[trigger] signature_part13()[j].name != "floor-div"@ by {
        if j == 0 {
            reveal_strlit("assertEqualToResult");
            assert("assertEqualToResult"@.len() != "floor-div"@.len());
        } else if j == 1 {
            reveal_strlit("assertEqualToResultMsg");
            assert("assertEqualToResultMsg"@.len() != "floor-div"@.len());
        } else if j == 2 {
            reveal_strlit("assertAlphaEqualToResult");
            assert("assertAlphaEqualToResult"@.len() != "floor-div"@.len());
        } else if j == 3 {
            reveal_strlit("assertAlphaEqualToResultMsg");
            assert("assertAlphaEqualToResultMsg"@.len() != "floor-div"@.len());
        }
    }
    lemma_last_named_none(signature_part13(), "floor-div"@);
    lemma_found_base(0, "floor-div"@, 9);
    lemma_found_step(1, "floor-div"@, signature_prefix(0).len() - signature_part(0).len() + 9);
    lemma_found_step(2, "floor-div"@, signature_prefix(0).len() - signature_part(0).len() + 9);
    lemma_found_step(3, "floor-div"@, signature_prefix(0).len() - signature_part(0).len() + 9);
    lemma_found_step(4, "floor-div"@, signature_prefix(0).len() - signature_part(0).len() + 9);
    lemma_found_step(5, "floor-div"@, signature_prefix(0).len() - signature_part(0).len() + 9);
    lemma_found_step(6, "floor-div"@, signature_prefix(0).len() - signature_part(0).len() + 9);
    lemma_found_step(7, "floor-div"@, signature_prefix(0).len() - signature_part(0).len() + 9);
    lemma_found_step(8, "floor-div"@, signature_prefix(0).len() - signature_part(0).len() + 9);
    lemma_found_step(9, "floor-div"@, signature_prefix(0).len() - signature_part(0).len() + 9);
    lemma_found_step(10, "floor-div"@, signature_prefix(0).len() - signature_part(0).len() + 9);
    lemma_found_step(11, "floor-div"@, signature_prefix(0).len() - signature_part(0).len() + 9);
    lemma_found_step(12, "floor-div"@, signature_prefix(0).len() - signature_part(0).len() + 9);
    lemma_found_step(13, "floor-div"@, signature_prefix(0).len() - signature_part(0).len() + 9);
    lemma_table_prefix();
}

/// The registry holds `log-math` once, as entry 3 of part 3.
proof fn lemma_registered_log_math()
    ensures
        signature_of("log-math"@) == Some(signature_part2()[3]),
{
    broadcast use vstd::string::group_string_axioms;

    reveal_strlit("log-math");
    assert forall|j: int| 4 <= j < signature_part2().len() implies #[trigger] signature_part2()[j].name != "log-math"@ by {
        if j == 4 {
            reveal_strlit("sin-math");
            assert("sin-math"@[0] != "log-math"@[0]);
        } else if j == 5 {
            reveal_strlit("cos-math");
            assert("cos-math"@[0] != "log-math"@[0]);
        } else if j == 6 {
            reveal_strlit("tan-math");
            assert("tan-math"@[0] != "log-math"@[0]);
        } else if j == 7 {
            reveal_strlit("asin-math");
            assert("asin-math"@.len() != "log-math"@.len());
        } else if j == 8 {
            reveal_strlit("acos-math");
            assert("acos-math"@.len() != "log-math"@.len());
        } else if j == 9 {
            reveal_strlit("atan-math");
            assert("atan-math"@.len() != "log-math"@.len());
        } else if j == 10 {
            reveal_strlit("isnan-math");
            assert("isnan-math"@.len() != "log-math"@.len());
        }
    }
    lemma_last_named_at(signature_part2(), "log-math"@, 3);
    assert forall|j: int| 0 <= j < signature_part3().len() implies #[trigger] signature_part3()[j].name != "log-math"@ by {
        if j == 0 {
            reveal_strlit("isinf-math");
            assert("isinf-math"@.len() != "log-math"@.len());
        } else if j == 1 {
            reveal_strlit("<");
            assert("<"@.len() != "log-math"@.len());
        } else if j == 2 {
            reveal_strlit("<=");
            assert("<="@.len() != "log-math"@.len());
        } else if j == 3 {
            reveal_strlit(">");
            assert(">"@.len() != "log-math"@.len());
        } else if j == 4 {
            reveal_strlit(">=");
            assert(">="@.len() != "log-math"@.len());
        } else if j == 5 {
            reveal_strlit("==");
            assert("=="@.len() != "log-math"@.len());
        } else if j == 6 {
            reveal_strlit("!=");
            assert("!="@.len() != "log-math"@.len());
        } else if j == 7 {
            reveal_strlit("and");
            assert("and"@.len() != "log-math"@.len());
        } else if j == 8 {
            reveal_strlit("or");
            assert("or"@.len() != "log-math"@.len());
        } else if j == 9 {
            reveal_strlit("not");
            assert("not"@.len() != "log-math"@.len());
        } else if j == 10 {
            reveal_strlit("xor");
            assert("xor"@.len() != "log-math"@.len());
        }
    }
    lemma_last_named_none(signature_part3(), "log-math"@);
    assert forall|j: int| 0 <= j < signature_part4().len() implies #[trigger] signature_part4()[j].name != "log-math"@ by {
        if j == 0 {
            reveal_strlit("if");
            assert("if"@.len() != "log-math"@.len());
        } else if j == 1 {
            reveal_strlit("case");
            assert("case"@.len() != "log-math"@.len());
        } else if j == 2 {
            reveal_strlit("switch");
            assert("switch"@.len() != "log-math"@.len());
        } else if j == 3 {
            reveal_strlit("if-equal");
            assert("if-equal"@[0] != "log-math"@[0]);
        } else if j == 4 {
            reveal_strlit("if-reducible");
            assert("if-reducible"@.len() != "log-math"@.len());
        } else if j == 5 {
            reveal_strlit("let");
            assert("let"@.len() != "log-math"@.len());
        } else if j == 6 {
            reveal_strlit("let*");
            assert("let*"@.len() != "log-math"@.len());
        } else if j == 7 {
            reveal_strlit("unify");
            assert("unify"@.len() != "log-math"@.len());
        } else if j == 8 {
            reveal_strlit("function");
            assert("function"@[0] != "log-math"@[0]);
        } else if j == 9 {
            reveal_strlit("return");
            assert("return"@.len() != "log-math"@.len());
        } else if j == 10 {
            reveal_strlit("chain");
            assert("chain"@.len() != "log-math"@.len());
        }
    }
    lemma_last_named_none(signature_part4(), "log-math"@);
    assert forall|j: int| 0 <= j < signature_part5().len() implies #[trigger] signature_part5()[j].name != "log-math"@ by {
        if j == 0 {
            reveal_strlit("=");
            assert("="@.len() != "log-math"@.len());
        } else if j == 1 {
            reveal_strlit(":");
            assert(":"@.len() != "log-math"@.len());
        } else if j == 2 {
            reveal_strlit("match");
            assert("match"@.len() != "log-math"@.len());
        } else if j == 3 {
            reveal_strlit("match-or");
            assert("match-or"@[0] != "log-math"@[0]);
        } else if j == 4 {
            reveal_strlit("new-space");
            assert("new-space"@.len() != "log-math"@.len());
        } else if j == 5 {
            reveal_strlit("add-atom");
            assert("add-atom"@[0] != "log-math"@[0]);
        } else if j == 6 {
            reveal_strlit("remove-atom");
            assert("remove-atom"@.len() != "log-math"@.len());
        } else if j == 7 {
            reveal_strlit("get-atoms");
            assert("get-atoms"@.len() != "log-math"@.len());
        } else if j == 8 {
            reveal_strlit("collapse");
            assert("collapse"@[0] != "log-math"@[0]);
        } else if j == 9 {
            reveal_strlit("collapse-bind");
            assert("collapse-bind"@.len() != "log-math"@.len());
        } else if j == 10 {
            reveal_strlit("car-atom");
            assert("car-atom"@[0] != "log-math"@[0]);
        }
    }
    lemma_last_named_none(signature_part5(), "log-math"@);
    assert forall|j: int| 0 <= j < signature_part6().len() implies #[trigger] signature_part6()[j].name != "log-math"@ by {
        if j == 0 {
            reveal_strlit("cdr-atom");
            assert("cdr-atom"@[0] != "log-math"@[0]);
        } else if j == 1 {
            reveal_strlit("cons-atom");
            assert("cons-atom"@.len() != "log-math"@.len());
        } else if j == 2 {
            reveal_strlit("decons-atom");
            assert("decons-atom"@.len() != "log-math"@.len());
        } else if j == 3 {
            reveal_strlit("size-atom");
            assert("size-atom"@.len() != "log-math"@.len());
        } else if j == 4 {
            reveal_strlit("max-atom");
            assert("max-atom"@[0] != "log-math"@[0]);
        } else if j == 5 {
            reveal_strlit("min-atom");
            assert("min-atom"@[0] != "log-math"@[0]);
        } else if j == 6 {
            reveal_strlit("index-atom");
            assert("index-atom"@.len() != "log-math"@.len());
        } else if j == 7 {
            reveal_strlit("empty");
            assert("empty"@.len() != "log-math"@.len());
        } else if j == 8 {
            reveal_strlit("tuple-concat");
            assert("tuple-concat"@.len() != "log-math"@.len());
        } else if j == 9 {
            reveal_strlit("tuple-count");
            assert("tuple-count"@.len() != "log-math"@.len());
        } else if j == 10 {
            reveal_strlit("without");
            assert("without"@.len() != "log-math"@.len());
        }
    }
    lemma_last_named_none(signature_part6(), "log-math"@);
    assert forall|j: int| 0 <= j < signature_part7().len() implies #[trigger] signature_part7()[j].name != "log-math"@ by {
        if j == 0 {
            reveal_strlit("element-of");
            assert("element-of"@.len() != "log-math"@.len());
        } else if j == 1 {
            reveal_strlit("range");
            assert("range"@.len() != "log-math"@.len());
        } else if j == 2 {
            reveal_strlit("reverse-atom");
            assert("reverse-atom"@.len() != "log-math"@.len());
        } else if j == 3 {
            reveal_strlit("flatten-atom");
            assert("flatten-atom"@.len() != "log-math"@.len());
        } else if j == 4 {
            reveal_strlit("zip-atom");
            assert("zip-atom"@[0] != "log-math"@[0]);
        } else if j == 5 {
            reveal_strlit("take-atom");
            assert("take-atom"@.len() != "log-math"@.len());
        } else if j == 6 {
            reveal_strlit("drop-atom");
            assert("drop-atom"@.len() != "log-math"@.len());
        } else if j == 7 {
            reveal_strlit("map-atom");
            assert("map-atom"@[0] != "log-math"@[0]);
        } else if j == 8 {
            reveal_strlit("filter-atom");
            assert("filter-atom"@.len() != "log-math"@.len());
        } else if j == 9 {
            reveal_strlit("foldl-atom");
            assert("foldl-atom"@.len() != "log-math"@.len());
        } else if j == 10 {
            reveal_strlit("sort-tuple");
            assert("sort-tuple"@.len() != "log-math"@.len());
        }
    }
    lemma_last_named_none(signature_part7(), "log-math"@);
    assert forall|j: int| 0 <= j < signature_part8().len() implies #[trigger] signature_part8()[j].name != "log-math"@ by {
        if j == 0 {
            reveal_strlit("best-candidate");
            assert("best-candidate"@.len() != "log-math"@.len());
        } else if j == 1 {
            reveal_strlit("unique-atom");
            assert("unique-atom"@.len() != "log-math"@.len());
        } else if j == 2 {
            reveal_strlit("union-atom");
            assert("union-atom"@.len() != "log-math"@.len());
        } else if j == 3 {
            reveal_strlit("intersection-atom");
            assert("intersection-atom"@.len() != "log-math"@.len());
        } else if j == 4 {
            reveal_strlit("subtraction-atom");
            assert("subtraction-atom"@.len() != "log-math"@.len());
        } else if j == 5 {
            reveal_strlit("superpose");
            assert("superpose"@.len() != "log-math"@.len());
        } else if j == 6 {
            reveal_strlit("amb");
            assert("amb"@.len() != "log-math"@.len());
        } else if j == 7 {
            reveal_strlit("guard");
            assert("guard"@.len() != "log-math"@.len());
        } else if j == 8 {
            reveal_strlit("commit");
            assert("commit"@.len() != "log-math"@.len());
        } else if j == 9 {
            reveal_strlit("backtrack");
            assert("backtrack"@.len() != "log-math"@.len());
        } else if j == 10 {
            reveal_strlit("quote");
            assert("quote"@.len() != "log-math"@.len());
        }
    }
    lemma_last_named_none(signature_part8(), "log-math"@);
    assert forall|j: int| 0 <= j < signature_part9().len() implies #[trigger] signature_part9()[j].name != "log-math"@ by {
        if j == 0 {
            reveal_strlit("unquote");
            assert("unquote"@.len() != "log-math"@.len());
        } else if j == 1 {
            reveal_strlit("eval");
            assert("eval"@.len() != "log-math"@.len());
        } else if j == 2 {
            reveal_strlit("!");
            assert("!"@.len() != "log-math"@.len());
        } else if j == 3 {
            reveal_strlit("sealed");
            assert("sealed"@.len() != "log-math"@.len());
        } else if j == 4 {
            reveal_strlit("atom-subst");
            assert("atom-subst"@.len() != "log-math"@.len());
        } else if j == 5 {
            reveal_strlit("nop");
            assert("nop"@.len() != "log-math"@.len());
        } else if j == 6 {
            reveal_strlit("get-type");
            assert("get-type"@[0] != "log-math"@[0]);
        } else if j == 7 {
            reveal_strlit("check-type");
            assert("check-type"@.len() != "log-math"@.len());
        } else if j == 8 {
            reveal_strlit("get-metatype");
            assert("get-metatype"@.len() != "log-math"@.len());
        } else if j == 9 {
            reveal_strlit("validate-atom");
            assert("validate-atom"@.len() != "log-math"@.len());
        } else if j == 10 {
            reveal_strlit("get-type-space");
            assert("get-type-space"@.len() != "log-math"@.len());
        }
    }
    lemma_last_named_none(signature_part9(), "log-math"@);
    assert forall|j: int| 0 <= j < signature_part10().len() implies #[trigger] signature_part10()[j].name != "log-math"@ by {
        if j == 0 {
            reveal_strlit("is-function");
            assert("is-function"@.len() != "log-math"@.len());
        } else if j == 1 {
            reveal_strlit("type-cast");
            assert("type-cast"@.len() != "log-math"@.len());
        } else if j == 2 {
            reveal_strlit("metta");
            assert("metta"@.len() != "log-math"@.len());
        } else if j == 3 {
            reveal_strlit("match-type-or");
            assert("match-type-or"@.len() != "log-math"@.len());
        } else if j == 4 {
            reveal_strlit("first-from-pair");
            assert("first-from-pair"@.len() != "log-math"@.len());
        } else if j == 5 {
            reveal_strlit(":<");
            assert(":<"@.len() != "log-math"@.len());
        } else if j == 6 {
            reveal_strlit("Error");
            assert("Error"@.len() != "log-math"@.len());
        } else if j == 7 {
            reveal_strlit("error");
            assert("error"@.len() != "log-math"@.len());
        } else if j == 8 {
            reveal_strlit("is-error");
            assert("is-error"@[0] != "log-math"@[0]);
        } else if j == 9 {
            reveal_strlit("catch");
            assert("catch"@.len() != "log-math"@.len());
        } else if j == 10 {
            reveal_strlit("new-state");
            assert("new-state"@.len() != "log-math"@.len());
        }
    }
    lemma_last_named_none(signature_part10(), "log-math"@);
    assert forall|j: int| 0 <= j < signature_part11().len() implies #[trigger] signature_part11()[j].name != "log-math"@ by {
        if j == 0 {
            reveal_strlit("get-state");
            assert("get-state"@.len() != "log-math"@.len());
        } else if j == 1 {
            reveal_strlit("change-state!");
            assert("change-state!"@.len() != "log-math"@.len());
        } else if j == 2 {
            reveal_strlit("println!");
            assert("println!"@[0] != "log-math"@[0]);
        } else if j == 3 {
            reveal_strlit("trace!");
            assert("trace!"@.len() != "log-math"@.len());
        } else if j == 4 {
            reveal_strlit("repr");
            assert("repr"@.len() != "log-math"@.len());
        } else if j == 5 {
            reveal_strlit("format-args");
            assert("format-args"@.len() != "log-math"@.len());
        } else if j == 6 {
            reveal_strlit("=alpha");
            assert("=alpha"@.len() != "log-math"@.len());
        } else if j == 7 {
            reveal_strlit("include");
            assert("include"@.len() != "log-math"@.len());
        } else if j == 8 {
            reveal_strlit("import!");
            assert("import!"@.len() != "log-math"@.len());
        } else if j == 9 {
            reveal_strlit("bind!");
            assert("bind!"@.len() != "log-math"@.len());
        } else if j == 10 {
            reveal_strlit("mod-space!");
            assert("mod-space!"@.len() != "log-math"@.len());
        }
    }
    lemma_last_named_none(signature_part11(), "log-math"@);
    assert forall|j: int| 0 <= j < signature_part12().len() implies #[trigger] signature_part12()[j].name != "log-math"@ by {
        if j == 0 {
            reveal_strlit("print-mods!");
            assert("print-mods!"@.len() != "log-math"@.len());
        } else if j == 1 {
            reveal_strlit("pragma!");
            assert("pragma!"@.len() != "log-math"@.len());
        } else if j == 2 {
            reveal_strlit("new-memo");
            assert("new-memo"@[0] != "log-math"@[0]);
        } else if j == 3 {
            reveal_strlit("memo");
            assert("memo"@.len() != "log-math"@.len());
        } else if j == 4 {
            reveal_strlit("memo-first");
            assert("memo-first"@.len() != "log-math"@.len());
        } else if j == 5 {
            reveal_strlit("clear-memo!");
            assert("clear-memo!"@.len() != "log-math"@.len());
        } else if j == 6 {
            reveal_strlit("memo-stats");
            assert("memo-stats"@.len() != "log-math"@.len());
        } else if j == 7 {
            reveal_strlit("assertEqual");
            assert("assertEqual"@.len() != "log-math"@.len());
        } else if j == 8 {
            reveal_strlit("assertEqualMsg");
            assert("assertEqualMsg"@.len() != "log-math"@.len());
        } else if j == 9 {
            reveal_strlit("assertAlphaEqual");
            assert("assertAlphaEqual"@.len() != "log-math"@.len());
        } else if j == 10 {
            reveal_strlit("assertAlphaEqualMsg");
            assert("assertAlphaEqualMsg"@.len() != "log-math"@.len());
        }
    }
    lemma_last_named_none(signature_part12(), "log-math"@);
    assert forall|j: int| 0 <= j < signature_part13().len() implies #[trigger] signature_part13()[j].name != "log-math"@ by {
        if j == 0 {
            reveal_strlit("assertEqualToResult");
            assert("assertEqualToResult"@.len() != "log-math"@.len());
        } else if j == 1 {
            reveal_strlit("assertEqualToResultMsg");
            assert("assertEqualToResultMsg"@.len() != "log-math"@.len());
        } else if j == 2 {
            reveal_strlit("assertAlphaEqualToResult");
            assert("assertAlphaEqualToResult"@.len() != "log-math"@.len());
        } else if j == 3 {
            reveal_strlit("assertAlphaEqualToResultMsg");
            assert("assertAlphaEqualToResultMsg"@.len() != "log-math"@.len());
        }
    }
    lemma_last_named_none(signature_part13(), "log-math"@);
    lemma_found_base(2, "log-math"@, 3);
    lemma_found_step(3, "log-math"@, signature_prefix(2).len() - signature_part(2).len() + 3);
    lemma_found_step(4, "log-math"@, signature_prefix(2).len() - signature_part(2).len() + 3);
    lemma_found_step(5, "log-math"@, signature_prefix(2).len() - signature_part(2).len() + 3);
    lemma_found_step(6, "log-math"@, signature_prefix(2).len() - signature_part(2).len() + 3);
    lemma_found_step(7, "log-math"@, signature_prefix(2).len() - signature_part(2).len() + 3);
    lemma_found_step(8, "log-math"@, signature_prefix(2).len() - signature_part(2).len() + 3);
    lemma_found_step(9, "log-math"@, signature_prefix(2).len() - signature_part(2).len() + 3);
    lemma_found_step(10, "log-math"@, signature_prefix(2).len() - signature_part(2).len() + 3);
    lemma_found_step(11, "log-math"@, signature_prefix(2).len() - signature_part(2).len() + 3);
    lemma_found_step(12, "log-math"@, signature_prefix(2).len() - signature_part(2).len() + 3);
    lemma_found_step(13, "log-math"@, signature_prefix(2).len() - signature_part(2).len() + 3);
    lemma_table_prefix();
}

/// The registry holds `<` once, as entry 1 of part 4.
proof fn lemma_registered_lt()
    ensures
        signature_of("<"@) == Some(signature_part3()[1]),
{
    broadcast use vstd::string::group_string_axioms;

    reveal_strlit("<");
    assert forall|j: int| 2 <= j < signature_part3().len() implies #[trigger] signature_part3()[j].name != "<"@ by {
        if j == 2 {
            reveal_strlit("<=");
            assert("<="@.len() != "<"@.len());
        } else if j == 3 {
            reveal_strlit(">");
            assert(">"@[0] != "<"@[0]);
        } else if j == 4 {
            reveal_strlit(">=");
            assert(">="@.len() != "<"@.len());
        } else if j == 5 {
            reveal_strlit("==");
            assert("=="@.len() != "<"@.len());
        } else if j == 6 {
            reveal_strlit("!=");
            assert("!="@.len() != "<"@.len());
        } else if j == 7 {
            reveal_strlit("and");
            assert("and"@.len() != "<"@.len());
        } else if j == 8 {
            reveal_strlit("or");
            assert("or"@.len() != "<"@.len());
        } else if j == 9 {
            reveal_strlit("not");
            assert("not"@.len() != "<"@.len());
        } else if j == 10 {
            reveal_strlit("xor");
            assert("xor"@.len() != "<"@.len());
        }
    }
    lemma_last_named_at(signature_part3(), "<"@, 1);
    assert forall|j: int| 0 <= j < signature_part4().len() implies #[trigger] signature_part4()[j].name != "<"@ by {
        if j == 0 {
            reveal_strlit("if");
            assert("if"@.len() != "<"@.len());
        } else if j == 1 {
            reveal_strlit("case");
            assert("case"@.len() != "<"@.len());
        } else if j == 2 {
            reveal_strlit("switch");
            assert("switch"@.len() != "<"@.len());
        } else if j == 3 {
            reveal_strlit("if-equal");
            assert("if-equal"@.len() != "<"@.len());
        } else if j == 4 {
            reveal_strlit("if-reducible");
            assert("if-reducible"@.len() != "<"@.len());
        } else if j == 5 {
            reveal_strlit("let");
            assert("let"@.len() != "<"@.len());
        } else if j == 6 {
            reveal_strlit("let*");
            assert("let*"@.len() != "<"@.len());
        } else if j == 7 {
            reveal_strlit("unify");
            assert("unify"@.len() != "<"@.len());
        } else if j == 8 {
            reveal_strlit("function");
            assert("function"@.len() != "<"@.len());
        } else if j == 9 {
            reveal_strlit("return");
            assert("return"@.len() != "<"@.len());
        } else if j == 10 {
            reveal_strlit("chain");
            assert("chain"@.len() != "<"@.len());
        }
    }
    lemma_last_named_none(signature_part4(), "<"@);
    assert forall|j: int| 0 <= j < signature_part5().len() implies #[trigger] signature_part5()[j].name != "<"@ by {
        if j == 0 {
            reveal_strlit("=");
            assert("="@[0] != "<"@[0]);
        } else if j == 1 {
            reveal_strlit(":");
            assert(":"@[0] != "<"@[0]);
        } else if j == 2 {
            reveal_strlit("match");
            assert("match"@.len() != "<"@.len());
        } else if j == 3 {
            reveal_strlit("match-or");
            assert("match-or"@.len() != "<"@.len());
        } else if j == 4 {
            reveal_strlit("new-space");
            assert("new-space"@.len() != "<"@.len());
        } else if j == 5 {
            reveal_strlit("add-atom");
            assert("add-atom"@.len() != "<"@.len());
        } else if j == 6 {
            reveal_strlit("remove-atom");
            assert("remove-atom"@.len() != "<"@.len());
        } else if j == 7 {
            reveal_strlit("get-atoms");
            assert("get-atoms"@.len() != "<"@.len());
        } else if j == 8 {
            reveal_strlit("collapse");
            assert("collapse"@.len() != "<"@.len());
        } else if j == 9 {
            reveal_strlit("collapse-bind");
            assert("collapse-bind"@.len() != "<"@.len());
        } else if j == 10 {
            reveal_strlit("car-atom");
            assert("car-atom"@.len() != "<"@.len());
        }
    }
    lemma_last_named_none(signature_part5(), "<"@);
    assert forall|j: int| 0 <= j < signature_part6().len() implies #[trigger] signature_part6()[j].name != "<"@ by {
        if j == 0 {
            reveal_strlit("cdr-atom");
            assert("cdr-atom"@.len() != "<"@.len());
        } else if j == 1 {
            reveal_strlit("cons-atom");
            assert("cons-atom"@.len() != "<"@.len());
        } else if j == 2 {
            reveal_strlit("decons-atom");
            assert("decons-atom"@.len() != "<"@.len());
        } else if j == 3 {
            reveal_strlit("size-atom");
            assert("size-atom"@.len() != "<"@.len());
        } else if j == 4 {
            reveal_strlit("max-atom");
            assert("max-atom"@.len() != "<"@.len());
        } else if j == 5 {
            reveal_strlit("min-atom");
            assert("min-atom"@.len() != "<"@.len());
        } else if j == 6 {
            reveal_strlit("index-atom");
            assert("index-atom"@.len() != "<"@.len());
        } else if j == 7 {
            reveal_strlit("empty");
            assert("empty"@.len() != "<"@.len());
        } else if j == 8 {
            reveal_strlit("tuple-concat");
            assert("tuple-concat"@.len() != "<"@.len());
        } else if j == 9 {
            reveal_strlit("tuple-count");
            assert("tuple-count"@.len() != "<"@.len());
        } else if j == 10 {
            reveal_strlit("without");
            assert("without"@.len() != "<"@.len());
        }
    }
    lemma_last_named_none(signature_part6(), "<"@);
    assert forall|j: int| 0 <= j < signature_part7().len() implies #[trigger] signature_part7()[j].name != "<"@ by {
        if j == 0 {
            reveal_strlit("element-of");
            assert("element-of"@.len() != "<"@.len());
        } else if j == 1 {
            reveal_strlit("range");
            assert("range"@.len() != "<"@.len());
        } else if j == 2 {
            reveal_strlit("reverse-atom");
            assert("reverse-atom"@.len() != "<"@.len());
        } else if j == 3 {
            reveal_strlit("flatten-atom");
            assert("flatten-atom"@.len() != "<"@.len());
        } else if j == 4 {
            reveal_strlit("zip-atom");
            assert("zip-atom"@.len() != "<"@.len());
        } else if j == 5 {
            reveal_strlit("take-atom");
            assert("take-atom"@.len() != "<"@.len());
        } else if j == 6 {
            reveal_strlit("drop-atom");
            assert("drop-atom"@.len() != "<"@.len());
        } else if j == 7 {
            reveal_strlit("map-atom");
            assert("map-atom"@.len() != "<"@.len());
        } else if j == 8 {
            reveal_strlit("filter-atom");
            assert("filter-atom"@.len() != "<"@.len());
        } else if j == 9 {
            reveal_strlit("foldl-atom");
            assert("foldl-atom"@.len() != "<"@.len());
        } else if j == 10 {
            reveal_strlit("sort-tuple");
            assert("sort-tuple"@.len() != "<"@.len());
        }
    }
    lemma_last_named_none(signature_part7(), "<"@);
    assert forall|j: int| 0 <= j < signature_part8().len() implies #[trigger] signature_part8()[j].name != "<"@ by {
        if j == 0 {
            reveal_strlit("best-candidate");
            assert("best-candidate"@.len() != "<"@.len());
        } else if j == 1 {
            reveal_strlit("unique-atom");
            assert("unique-atom"@.len() != "<"@.len());
        } else if j == 2 {
            reveal_strlit("union-atom");
            assert("union-atom"@.len() != "<"@.len());
        } else if j == 3 {
            reveal_strlit("intersection-atom");
            assert("intersection-atom"@.len() != "<"@.len());
        } else if j == 4 {
            reveal_strlit("subtraction-atom");
            assert("subtraction-atom"@.len() != "<"@.len());
        } else if j == 5 {
            reveal_strlit("superpose");
            assert("superpose"@.len() != "<"@.len());
        } else if j == 6 {
            reveal_strlit("amb");
            assert("amb"@.len() != "<"@.len());
        } else if j == 7 {
            reveal_strlit("guard");
            assert("guard"@.len() != "<"@.len());
        } else if j == 8 {
            reveal_strlit("commit");
            assert("commit"@.len() != "<"@.len());
        } else if j == 9 {
            reveal_strlit("backtrack");
            assert("backtrack"@.len() != "<"@.len());
        } else if j == 10 {
            reveal_strlit("quote");
            assert("quote"@.len() != "<"@.len());
        }
    }
    lemma_last_named_none(signature_part8(), "<"@);
    assert forall|j: int| 0 <= j < signature_part9().len() implies #[trigger] signature_part9()[j].name != "<"@ by {
        if j == 0 {
            reveal_strlit("unquote");
            assert("unquote"@.len() != "<"@.len());
        } else if j == 1 {
            reveal_strlit("eval");
            assert("eval"@.len() != "<"@.len());
        } else if j == 2 {
            reveal_strlit("!");
            assert("!"@[0] != "<"@[0]);
        } else if j == 3 {
            reveal_strlit("sealed");
            assert("sealed"@.len() != "<"@.len());
        } else if j == 4 {
            reveal_strlit("atom-subst");
            assert("atom-subst"@.len() != "<"@.len());
        } else if j == 5 {
            reveal_strlit("nop");
            assert("nop"@.len() != "<"@.len());
        } else if j == 6 {
            reveal_strlit("get-type");
            assert("get-type"@.len() != "<"@.len());
        } else if j == 7 {
            reveal_strlit("check-type");
            assert("check-type"@.len() != "<"@.len());
        } else if j == 8 {
            reveal_strlit("get-metatype");
            assert("get-metatype"@.len() != "<"@.len());
        } else if j == 9 {
            reveal_strlit("validate-atom");
            assert("validate-atom"@.len() != "<"@.len());
        } else if j == 10 {
            reveal_strlit("get-type-space");
            assert("get-type-space"@.len() != "<"@.len());
        }
    }
    lemma_last_named_none(signature_part9(), "<"@);
    assert forall|j: int| 0 <= j < signature_part10().len() implies #[trigger] signature_part10()[j].name != "<"@ by {
        if j == 0 {
            reveal_strlit("is-function");
            assert("is-function"@.len() != "<"@.len());
        } else if j == 1 {
            reveal_strlit("type-cast");
            assert("type-cast"@.len() != "<"@.len());
        } else if j == 2 {
            reveal_strlit("metta");
            assert("metta"@.len() != "<"@.len());
        } else if j == 3 {
            reveal_strlit("match-type-or");
            assert("match-type-or"@.len() != "<"@.len());
        } else if j == 4 {
            reveal_strlit("first-from-pair");
            assert("first-from-pair"@.len() != "<"@.len());
        } else if j == 5 {
            reveal_strlit(":<");
            assert(":<"@.len() != "<"@.len());
        } else if j == 6 {
            reveal_strlit("Error");
            assert("Error"@.len() != "<"@.len());
        } else if j == 7 {
            reveal_strlit("error");
            assert("error"@.len() != "<"@.len());
        } else if j == 8 {
            reveal_strlit("is-error");
            assert("is-error"@.len() != "<"@.len());
        } else if j == 9 {
            reveal_strlit("catch");
            assert("catch"@.len() != "<"@.len());
        } else if j == 10 {
            reveal_strlit("new-state");
            assert("new-state"@.len() != "<"@.len());
        }
    }
    lemma_last_named_none(signature_part10(), "<"@);
    assert forall|j: int| 0 <= j < signature_part11().len() implies #[trigger] signature_part11()[j].name != "<"@ by {
        if j == 0 {
            reveal_strlit("get-state");
            assert("get-state"@.len() != "<"@.len());
        } else if j == 1 {
            reveal_strlit("change-state!");
            assert("change-state!"@.len() != "<"@.len());
        } else if j == 2 {
            reveal_strlit("println!");
            assert("println!"@.len() != "<"@.len());
        } else if j == 3 {
            reveal_strlit("trace!");
            assert("trace!"@.len() != "<"@.len());
        } else if j == 4 {
            reveal_strlit("repr");
            assert("repr"@.len() != "<"@.len());
        } else if j == 5 {
            reveal_strlit("format-args");
            assert("format-args"@.len() != "<"@.len());
        } else if j == 6 {
            reveal_strlit("=alpha");
            assert("=alpha"@.len() != "<"@.len());
        } else if j == 7 {
            reveal_strlit("include");
            assert("include"@.len() != "<"@.len());
        } else if j == 8 {
            reveal_strlit("import!");
            assert("import!"@.len() != "<"@.len());
        } else if j == 9 {
            reveal_strlit("bind!");
            assert("bind!"@.len() != "<"@.len());
        } else if j == 10 {
            reveal_strlit("mod-space!");
            assert("mod-space!"@.len() != "<"@.len());
        }
    }
    lemma_last_named_none(signature_part11(), "<"@);
    assert forall|j: int| 0 <= j < signature_part12().len() implies #[trigger] signature_part12()[j].name != "<"@ by {
        if j == 0 {
            reveal_strlit("print-mods!");
            assert("print-mods!"@.len() != "<"@.len());
        } else if j == 1 {
            reveal_strlit("pragma!");
            assert("pragma!"@.len() != "<"@.len());
        } else if j == 2 {
            reveal_strlit("new-memo");
            assert("new-memo"@.len() != "<"@.len());
        } else if j == 3 {
            reveal_strlit("memo");
            assert("memo"@.len() != "<"@.len());
        } else if j == 4 {
            reveal_strlit("memo-first");
            assert("memo-first"@.len() != "<"@.len());
        } else if j == 5 {
            reveal_strlit("clear-memo!");
            assert("clear-memo!"@.len() != "<"@.len());
        } else if j == 6 {
            reveal_strlit("memo-stats");
            assert("memo-stats"@.len() != "<"@.len());
        } else if j == 7 {
            reveal_strlit("assertEqual");
            assert("assertEqual"@.len() != "<"@.len());
        } else if j == 8 {
            reveal_strlit("assertEqualMsg");
            assert("assertEqualMsg"@.len() != "<"@.len());
        } else if j == 9 {
            reveal_strlit("assertAlphaEqual");
            assert("assertAlphaEqual"@.len() != "<"@.len());
        } else if j == 10 {
            reveal_strlit("assertAlphaEqualMsg");
            assert("assertAlphaEqualMsg"@.len() != "<"@.len());
        }
    }
    lemma_last_named_none(signature_part12(), "<"@);
    assert forall|j: int| 0 <= j < signature_part13().len() implies #[trigger] signature_part13()[j].name != "<"@ by {
        if j == 0 {
            reveal_strlit("assertEqualToResult");
            assert("assertEqualToResult"@.len() != "<"@.len());
        } else if j == 1 {
            reveal_strlit("assertEqualToResultMsg");
            assert("assertEqualToResultMsg"@.len() != "<"@.len());
        } else if j == 2 {
            reveal_strlit("assertAlphaEqualToResult");
            assert("assertAlphaEqualToResult"@.len() != "<"@.len());
        } else if j == 3 {
            reveal_strlit("assertAlphaEqualToResultMsg");
            assert("assertAlphaEqualToResultMsg"@.len() != "<"@.len());
        }
    }
    lemma_last_named_none(signature_part13(), "<"@);
    lemma_found_base(3, "<"@, 1);
    lemma_found_step(4, "<"@, signature_prefix(3).len() - signature_part(3).len() + 1);
    lemma_found_step(5, "<"@, signature_prefix(3).len() - signature_part(3).len() + 1);
    lemma_found_step(6, "<"@, signature_prefix(3).len() - signature_part(3).len() + 1);
    lemma_found_step(7, "<"@, signature_prefix(3).len() - signature_part(3).len() + 1);
    lemma_found_step(8, "<"@, signature_prefix(3).len() - signature_part(3).len() + 1);
    lemma_found_step(9, "<"@, signature_prefix(3).len() - signature_part(3).len() + 1);
    lemma_found_step(10, "<"@, signature_prefix(3).len() - signature_part(3).len() + 1);
    lemma_found_step(11, "<"@, signature_prefix(3).len() - signature_part(3).len() + 1);
    lemma_found_step(12, "<"@, signature_prefix(3).len() - signature_part(3).len() + 1);
    lemma_found_step(13, "<"@, signature_prefix(3).len() - signature_part(3).len() + 1);
    lemma_table_prefix();
}

/// The registry holds `<=` once, as entry 2 of part 4.
proof fn lemma_registered_le()
    ensures
        signature_of("<="@) == Some(signature_part3()[2]),
{
    broadcast use vstd::string::group_string_axioms;

    reveal_strlit("<=");
    assert forall|j: int| 3 <= j < signature_part3().len() implies #[trigger] signature_part3()[j].name != "<="@ by {
        if j == 3 {
            reveal_strlit(">");
            assert(">"@.len() != "<="@.len());
        } else if j == 4 {
            reveal_strlit(">=");
            assert(">="@[0] != "<="@[0]);
        } else if j == 5 {
            reveal_strlit("==");
            assert("=="@[0] != "<="@[0]);
        } else if j == 6 {
            reveal_strlit("!=");
            assert("!="@[0] != "<="@[0]);
        } else if j == 7 {
            reveal_strlit("and");
            assert("and"@.len() != "<="@.len());
        } else if j == 8 {
            reveal_strlit("or");
            assert("or"@[0] != "<="@[0]);
        } else if j == 9 {
            reveal_strlit("not");
            assert("not"@.len() != "<="@.len());
        } else if j == 10 {
            reveal_strlit("xor");
            assert("xor"@.len() != "<="@.len());
        }
    }
    lemma_last_named_at(signature_part3(), "<="@, 2);
    assert forall|j: int| 0 <= j < signature_part4().len() implies #[trigger] signature_part4()[j].name != "<="@ by {
        if j == 0 {
            reveal_strlit("if");
            assert("if"@[0] != "<="@[0]);
        } else if j == 1 {
            reveal_strlit("case");
            assert("case"@.len() != "<="@.len());
        } else if j == 2 {
            reveal_strlit("switch");
            assert("switch"@.len() != "<="@.len());
        } else if j == 3 {
            reveal_strlit("if-equal");
            assert("if-equal"@.len() != "<="@.len());
        } else if j == 4 {
            reveal_strlit("if-reducible");
            assert("if-reducible"@.len() != "<="@.len());
        } else if j == 5 {
            reveal_strlit("let");
            assert("let"@.len() != "<="@.len());
        } else if j == 6 {
            reveal_strlit("let*");
            assert("let*"@.len() != "<="@.len());
        } else if j == 7 {
            reveal_strlit("unify");
            assert("unify"@.len() != "<="@.len());
        } else if j == 8 {
            reveal_strlit("function");
            assert("function"@.len() != "<="@.len());
        } else if j == 9 {
            reveal_strlit("return");
            assert("return"@.len() != "<="@.len());
        } else if j == 10 {
            reveal_strlit("chain");
            assert("chain"@.len() != "<="@.len());
        }
    }
    lemma_last_named_none(signature_part4(), "<="@);
    assert forall|j: int| 0 <= j < signature_part5().len() implies #[trigger] signature_part5()[j].name != "<="@ by {
        if j == 0 {
            reveal_strlit("=");
            assert("="@.len() != "<="@.len());
        } else if j == 1 {
            reveal_strlit(":");
            assert(":"@.len() != "<="@.len());
        } else if j == 2 {
            reveal_strlit("match");
            assert("match"@.len() != "<="@.len());
        } else if j == 3 {
            reveal_strlit("match-or");
            assert("match-or"@.len() != "<="@.len());
        } else if j == 4 {
            reveal_strlit("new-space");
            assert("new-space"@.len() != "<="@.len());
        } else if j == 5 {
            reveal_strlit("add-atom");
            assert("add-atom"@.len() != "<="@.len());
        } else if j == 6 {
            reveal_strlit("remove-atom");
            assert("remove-atom"@.len() != "<="@.len());
        } else if j == 7 {
            reveal_strlit("get-atoms");
            assert("get-atoms"@.len() != "<="@.len());
        } else if j == 8 {
            reveal_strlit("collapse");
            assert("collapse"@.len() != "<="@.len());
        } else if j == 9 {
            reveal_strlit("collapse-bind");
            assert("collapse-bind"@.len() != "<="@.len());
        } else if j == 10 {
            reveal_strlit("car-atom");
            assert("car-atom"@.len() != "<="@.len());
        }
    }
    lemma_last_named_none(signature_part5(), "<="@);
    assert forall|j: int| 0 <= j < signature_part6().len() implies #[trigger] signature_part6()[j].name != "<="@ by {
        if j == 0 {
            reveal_strlit("cdr-atom");
            assert("cdr-atom"@.len() != "<="@.len());
        } else if j == 1 {
            reveal_strlit("cons-atom");
            assert("cons-atom"@.len() != "<="@.len());
        } else if j == 2 {
            reveal_strlit("decons-atom");
            assert("decons-atom"@.len() != "<="@.len());
        } else if j == 3 {
            reveal_strlit("size-atom");
            assert("size-atom"@.len() != "<="@.len());
        } else if j == 4 {
            reveal_strlit("max-atom");
            assert("max-atom"@.len() != "<="@.len());
        } else if j == 5 {
            reveal_strlit("min-atom");
            assert("min-atom"@.len() != "<="@.len());
        } else if j == 6 {
            reveal_strlit("index-atom");
            assert("index-atom"@.len() != "<="@.len());
        } else if j == 7 {
            reveal_strlit("empty");
            assert("empty"@.len() != "<="@.len());
        } else if j == 8 {
            reveal_strlit("tuple-concat");
            assert("tuple-concat"@.len() != "<="@.len());
        } else if j == 9 {
            reveal_strlit("tuple-count");
            assert("tuple-count"@.len() != "<="@.len());
        } else if j == 10 {
            reveal_strlit("without");
            assert("without"@.len() != "<="@.len());
        }
    }
    lemma_last_named_none(signature_part6(), "<="@);
    assert forall|j: int| 0 <= j < signature_part7().len() implies #[trigger] signature_part7()[j].name != "<="@ by {
        if j == 0 {
            reveal_strlit("element-of");
            assert("element-of"@.len() != "<="@.len());
        } else if j == 1 {
            reveal_strlit("range");
            assert("range"@.len() != "<="@.len());
        } else if j == 2 {
            reveal_strlit("reverse-atom");
            assert("reverse-atom"@.len() != "<="@.len());
        } else if j == 3 {
            reveal_strlit("flatten-atom");
            assert("flatten-atom"@.len() != "<="@.len());
        } else if j == 4 {
            reveal_strlit("zip-atom");
            assert("zip-atom"@.len() != "<="@.len());
        } else if j == 5 {
            reveal_strlit("take-atom");
            assert("take-atom"@.len() != "<="@.len());
        } else if j == 6 {
            reveal_strlit("drop-atom");
            assert("drop-atom"@.len() != "<="@.len());
        } else if j == 7 {
            reveal_strlit("map-atom");
            assert("map-atom"@.len() != "<="@.len());
        } else if j == 8 {
            reveal_strlit("filter-atom");
            assert("filter-atom"@.len() != "<="@.len());
        } else if j == 9 {
            reveal_strlit("foldl-atom");
            assert("foldl-atom"@.len() != "<="@.len());
        } else if j == 10 {
            reveal_strlit("sort-tuple");
            assert("sort-tuple"@.len() != "<="@.len());
        }
    }
    lemma_last_named_none(signature_part7(), "<="@);
    assert forall|j: int| 0 <= j < signature_part8().len() implies #[trigger] signature_part8()[j].name != "<="@ by {
        if j == 0 {
            reveal_strlit("best-candidate");
            assert("best-candidate"@.len() != "<="@.len());
        } else if j == 1 {
            reveal_strlit("unique-atom");
            assert("unique-atom"@.len() != "<="@.len());
        } else if j == 2 {
            reveal_strlit("union-atom");
            assert("union-atom"@.len() != "<="@.len());
        } else if j == 3 {
            reveal_strlit("intersection-atom");
            assert("intersection-atom"@.len() != "<="@.len());
        } else if j == 4 {
            reveal_strlit("subtraction-atom");
            assert("subtraction-atom"@.len() != "<="@.len());
        } else if j == 5 {
            reveal_strlit("superpose");
            assert("superpose"@.len() != "<="@.len());
        } else if j == 6 {
            reveal_strlit("amb");
            assert("amb"@.len() != "<="@.len());
        } else if j == 7 {
            reveal_strlit("guard");
            assert("guard"@.len() != "<="@.len());
        } else if j == 8 {
            reveal_strlit("commit");
            assert("commit"@.len() != "<="@.len());
        } else if j == 9 {
            reveal_strlit("backtrack");
            assert("backtrack"@.len() != "<="@.len());
        } else if j == 10 {
            reveal_strlit("quote");
            assert("quote"@.len() != "<="@.len());
        }
    }
    lemma_last_named_none(signature_part8(), "<="@);
    assert forall|j: int| 0 <= j < signature_part9().len() implies #[trigger] signature_part9()[j].name != "<="@ by {
        if j == 0 {
            reveal_strlit("unquote");
            assert("unquote"@.len() != "<="@.len());
        } else if j == 1 {
            reveal_strlit("eval");
            assert("eval"@.len() != "<="@.len());
        } else if j == 2 {
            reveal_strlit("!");
            assert("!"@.len() != "<="@.len());
        } else if j == 3 {
            reveal_strlit("sealed");
            assert("sealed"@.len() != "<="@.len());
        } else if j == 4 {
            reveal_strlit("atom-subst");
            assert("atom-subst"@.len() != "<="@.len());
        } else if j == 5 {
            reveal_strlit("nop");
            assert("nop"@.len() != "<="@.len());
        } else if j == 6 {
            reveal_strlit("get-type");
            assert("get-type"@.len() != "<="@.len());
        } else if j == 7 {
            reveal_strlit("check-type");
            assert("check-type"@.len() != "<="@.len());
        } else if j == 8 {
            reveal_strlit("get-metatype");
            assert("get-metatype"@.len() != "<="@.len());
        } else if j == 9 {
            reveal_strlit("validate-atom");
            assert("validate-atom"@.len() != "<="@.len());
        } else if j == 10 {
            reveal_strlit("get-type-space");
            assert("get-type-space"@.len() != "<="@.len());
        }
    }
    lemma_last_named_none(signature_part9(), "<="@);
    assert forall|j: int| 0 <= j < signature_part10().len() implies #[trigger] signature_part10()[j].name != "<="@ by {
        if j == 0 {
            reveal_strlit("is-function");
            assert("is-function"@.len() != "<="@.len());
        } else if j == 1 {
            reveal_strlit("type-cast");
            assert("type-cast"@.len() != "<="@.len());
        } else if j == 2 {
            reveal_strlit("metta");
            assert("metta"@.len() != "<="@.len());
        } else if j == 3 {
            reveal_strlit("match-type-or");
            assert("match-type-or"@.len() != "<="@.len());
        } else if j == 4 {
            reveal_strlit("first-from-pair");
            assert("first-from-pair"@.len() != "<="@.len());
        } else if j == 5 {
            reveal_strlit(":<");
            assert(":<"@[0] != "<="@[0]);
        } else if j == 6 {
            reveal_strlit("Error");
            assert("Error"@.len() != "<="@.len());
        } else if j == 7 {
            reveal_strlit("error");
            assert("error"@.len() != "<="@.len());
        } else if j == 8 {
            reveal_strlit("is-error");
            assert("is-error"@.len() != "<="@.len());
        } else if j == 9 {
            reveal_strlit("catch");
            assert("catch"@.len() != "<="@.len());
        } else if j == 10 {
            reveal_strlit("new-state");
            assert("new-state"@.len() != "<="@.len());
        }
    }
    lemma_last_named_none(signature_part10(), "<="@);
    assert forall|j: int| 0 <= j < signature_part11().len() implies #[trigger] signature_part11()[j].name != "<="@ by {
        if j == 0 {
            reveal_strlit("get-state");
            assert("get-state"@.len() != "<="@.len());
        } else if j == 1 {
            reveal_strlit("change-state!");
            assert("change-state!"@.len() != "<="@.len());
        } else if j == 2 {
            reveal_strlit("println!");
            assert("println!"@.len() != "<="@.len());
        } else if j == 3 {
            reveal_strlit("trace!");
            assert("trace!"@.len() != "<="@.len());
        } else if j == 4 {
            reveal_strlit("repr");
            assert("repr"@.len() != "<="@.len());
        } else if j == 5 {
            reveal_strlit("format-args");
            assert("format-args"@.len() != "<="@.len());
        } else if j == 6 {
            reveal_strlit("=alpha");
            assert("=alpha"@.len() != "<="@.len());
        } else if j == 7 {
            reveal_strlit("include");
            assert("include"@.len() != "<="@.len());
        } else if j == 8 {
            reveal_strlit("import!");
            assert("import!"@.len() != "<="@.len());
        } else if j == 9 {
            reveal_strlit("bind!");
            assert("bind!"@.len() != "<="@.len());
        } else if j == 10 {
            reveal_strlit("mod-space!");
            assert("mod-space!"@.len() != "<="@.len());
        }
    }
    lemma_last_named_none(signature_part11(), "<="@);
    assert forall|j: int| 0 <= j < signature_part12().len() implies #[trigger] signature_part12()[j].name != "<="@ by {
        if j == 0 {
            reveal_strlit("print-mods!");
            assert("print-mods!"@.len() != "<="@.len());
        } else if j == 1 {
            reveal_strlit("pragma!");
            assert("pragma!"@.len() != "<="@.len());
        } else if j == 2 {
            reveal_strlit("new-memo");
            assert("new-memo"@.len() != "<="@.len());
        } else if j == 3 {
            reveal_strlit("memo");
            assert("memo"@.len() != "<="@.len());
        } else if j == 4 {
            reveal_strlit("memo-first");
            assert("memo-first"@.len() != "<="@.len());
        } else if j == 5 {
            reveal_strlit("clear-memo!");
            assert("clear-memo!"@.len() != "<="@.len());
        } else if j == 6 {
            reveal_strlit("memo-stats");
            assert("memo-stats"@.len() != "<="@.len());
        } else if j == 7 {
            reveal_strlit("assertEqual");
            assert("assertEqual"@.len() != "<="@.len());
        } else if j == 8 {
            reveal_strlit("assertEqualMsg");
            assert("assertEqualMsg"@.len() != "<="@.len());
        } else if j == 9 {
            reveal_strlit("assertAlphaEqual");
            assert("assertAlphaEqual"@.len() != "<="@.len());
        } else if j == 10 {
            reveal_strlit("assertAlphaEqualMsg");
            assert("assertAlphaEqualMsg"@.len() != "<="@.len());
        }
    }
    lemma_last_named_none(signature_part12(), "<="@);
    assert forall|j: int| 0 <= j < signature_part13().len() implies #[trigger] signature_part13()[j].name != "<="@ by {
        if j == 0 {
            reveal_strlit("assertEqualToResult");
            assert("assertEqualToResult"@.len() != "<="@.len());
        } else if j == 1 {
            reveal_strlit("assertEqualToResultMsg");
            assert("assertEqualToResultMsg"@.len() != "<="@.len());
        } else if j == 2 {
            reveal_strlit("assertAlphaEqualToResult");
            assert("assertAlphaEqualToResult"@.len() != "<="@.len());
        } else if j == 3 {
            reveal_strlit("assertAlphaEqualToResultMsg");
            assert("assertAlphaEqualToResultMsg"@.len() != "<="@.len());
        }
    }
    lemma_last_named_none(signature_part13(), "<="@);
    lemma_found_base(3, "<="@, 2);
    lemma_found_step(4, "<="@, signature_prefix(3).len() - signature_part(3).len() + 2);
    lemma_found_step(5, "<="@, signature_prefix(3).len() - signature_part(3).len() + 2);
    lemma_found_step(6, "<="@, signature_prefix(3).len() - signature_part(3).len() + 2);
    lemma_found_step(7, "<="@, signature_prefix(3).len() - signature_part(3).len() + 2);
    lemma_found_step(8, "<="@, signature_prefix(3).len() - signature_part(3).len() + 2);
    lemma_found_step(9, "<="@, signature_prefix(3).len() - signature_part(3).len() + 2);
    lemma_found_step(10, "<="@, signature_prefix(3).len() - signature_part(3).len() + 2);
    lemma_found_step(11, "<="@, signature_prefix(3).len() - signature_part(3).len() + 2);
    lemma_found_step(12, "<="@, signature_prefix(3).len() - signature_part(3).len() + 2);
    lemma_found_step(13, "<="@, signature_prefix(3).len() - signature_part(3).len() + 2);
    lemma_table_prefix();
}

/// The registry holds `>` once, as entry 3 of part 4.
proof fn lemma_registered_gt()
    ensures
        signature_of(">"@) == Some(signature_part3()[3]),
{
    broadcast use vstd::string::group_string_axioms;

    reveal_strlit(">");
    assert forall|j: int| 4 <= j < signature_part3().len() implies #[trigger] signature_part3()[j].name != ">"@ by {
        if j == 4 {
            reveal_strlit(">=");
            assert(">="@.len() != ">"@.len());
        } else if j == 5 {
            reveal_strlit("==");
            assert("=="@.len() != ">"@.len());
        } else if j == 6 {
            reveal_strlit("!=");
            assert("!="@.len() != ">"@.len());
        } else if j == 7 {
            reveal_strlit("and");
            assert("and"@.len() != ">"@.len());
        } else if j == 8 {
            reveal_strlit("or");
            assert("or"@.len() != ">"@.len());
        } else if j == 9 {
            reveal_strlit("not");
            assert("not"@.len() != ">"@.len());
        } else if j == 10 {
            reveal_strlit("xor");
            assert("xor"@.len() != ">"@.len());
        }
    }
    lemma_last_named_at(signature_part3(), ">"@, 3);
    assert forall|j: int| 0 <= j < signature_part4().len() implies #[trigger] signature_part4()[j].name != ">"@ by {
        if j == 0 {
            reveal_strlit("if");
            assert("if"@.len() != ">"@.len());
        } else if j == 1 {
            reveal_strlit("case");
            assert("case"@.len() != ">"@.len());
        } else if j == 2 {
            reveal_strlit("switch");
            assert("switch"@.len() != ">"@.len());
        } else if j == 3 {
            reveal_strlit("if-equal");
            assert("if-equal"@.len() != ">"@.len());
        } else if j == 4 {
            reveal_strlit("if-reducible");
            assert("if-reducible"@.len() != ">"@.len());
        } else if j == 5 {
            reveal_strlit("let");
            assert("let"@.len() != ">"@.len());
        } else if j == 6 {
            reveal_strlit("let*");
            assert("let*"@.len() != ">"@.len());
        } else if j == 7 {
            reveal_strlit("unify");
            assert("unify"@.len() != ">"@.len());
        } else if j == 8 {
            reveal_strlit("function");
            assert("function"@.len() != ">"@.len());
        } else if j == 9 {
            reveal_strlit("return");
            assert("return"@.len() != ">"@.len());
        } else if j == 10 {
            reveal_strlit("chain");
            assert("chain"@.len() != ">"@.len());
        }
    }
    lemma_last_named_none(signature_part4(), ">"@);
    assert forall|j: int| 0 <= j < signature_part5().len() implies #[trigger] signature_part5()[j].name != ">"@ by {
        if j == 0 {
            reveal_strlit("=");
            assert("="@[0] != ">"@[0]);
        } else if j == 1 {
            reveal_strlit(":");
            assert(":"@[0] != ">"@[0]);
        } else if j == 2 {
            reveal_strlit("match");
            assert("match"@.len() != ">"@.len());
        } else if j == 3 {
            reveal_strlit("match-or");
            assert("match-or"@.len() != ">"@.len());
        } else if j == 4 {
            reveal_strlit("new-space");
            assert("new-space"@.len() != ">"@.len());
        } else if j == 5 {
            reveal_strlit("add-atom");
            assert("add-atom"@.len() != ">"@.len());
        } else if j == 6 {
            reveal_strlit("remove-atom");
            assert("remove-atom"@.len() != ">"@.len());
        } else if j == 7 {
            reveal_strlit("get-atoms");
            assert("get-atoms"@.len() != ">"@.len());
        } else if j == 8 {
            reveal_strlit("collapse");
            assert("collapse"@.len() != ">"@.len());
        } else if j == 9 {
            reveal_strlit("collapse-bind");
            assert("collapse-bind"@.len() != ">"@.len());
        } else if j == 10 {
            reveal_strlit("car-atom");
            assert("car-atom"@.len() != ">"@.len());
        }
    }
    lemma_last_named_none(signature_part5(), ">"@);
    assert forall|j: int| 0 <= j < signature_part6().len() implies #[trigger] signature_part6()[j].name != ">"@ by {
        if j == 0 {
            reveal_strlit("cdr-atom");
            assert("cdr-atom"@.len() != ">"@.len());
        } else if j == 1 {
            reveal_strlit("cons-atom");
            assert("cons-atom"@.len() != ">"@.len());
        } else if j == 2 {
            reveal_strlit("decons-atom");
            assert("decons-atom"@.len() != ">"@.len());
        } else if j == 3 {
            reveal_strlit("size-atom");
            assert("size-atom"@.len() != ">"@.len());
        } else if j == 4 {
            reveal_strlit("max-atom");
            assert("max-atom"@.len() != ">"@.len());
        } else if j == 5 {
            reveal_strlit("min-atom");
            assert("min-atom"@.len() != ">"@.len());
        } else if j == 6 {
            reveal_strlit("index-atom");
            assert("index-atom"@.len() != ">"@.len());
        } else if j == 7 {
            reveal_strlit("empty");
            assert("empty"@.len() != ">"@.len());
        } else if j == 8 {
            reveal_strlit("tuple-concat");
            assert("tuple-concat"@.len() != ">"@.len());
        } else if j == 9 {
            reveal_strlit("tuple-count");
            assert("tuple-count"@.len() != ">"@.len());
        } else if j == 10 {
            reveal_strlit("without");
            assert("without"@.len() != ">"@.len());
        }
    }
    lemma_last_named_none(signature_part6(), ">"@);
    assert forall|j: int| 0 <= j < signature_part7().len() implies #[trigger] signature_part7()[j].name != ">"@ by {
        if j == 0 {
            reveal_strlit("element-of");
            assert("element-of"@.len() != ">"@.len());
        } else if j == 1 {
            reveal_strlit("range");
            assert("range"@.len() != ">"@.len());
        } else if j == 2 {
            reveal_strlit("reverse-atom");
            assert("reverse-atom"@.len() != ">"@.len());
        } else if j == 3 {
            reveal_strlit("flatten-atom");
            assert("flatten-atom"@.len() != ">"@.len());
        } else if j == 4 {
            reveal_strlit("zip-atom");
            assert("zip-atom"@.len() != ">"@.len());
        } else if j == 5 {
            reveal_strlit("take-atom");
            assert("take-atom"@.len() != ">"@.len());
        } else if j == 6 {
            reveal_strlit("drop-atom");
            assert("drop-atom"@.len() != ">"@.len());
        } else if j == 7 {
            reveal_strlit("map-atom");
            assert("map-atom"@.len() != ">"@.len());
        } else if j == 8 {
            reveal_strlit("filter-atom");
            assert("filter-atom"@.len() != ">"@.len());
        } else if j == 9 {
            reveal_strlit("foldl-atom");
            assert("foldl-atom"@.len() != ">"@.len());
        } else if j == 10 {
            reveal_strlit("sort-tuple");
            assert("sort-tuple"@.len() != ">"@.len());
        }
    }
    lemma_last_named_none(signature_part7(), ">"@);
    assert forall|j: int| 0 <= j < signature_part8().len() implies #[trigger] signature_part8()[j].name != ">"@ by {
        if j == 0 {
            reveal_strlit("best-candidate");
            assert("best-candidate"@.len() != ">"@.len());
        } else if j == 1 {
            reveal_strlit("unique-atom");
            assert("unique-atom"@.len() != ">"@.len());
        } else if j == 2 {
            reveal_strlit("union-atom");
            assert("union-atom"@.len() != ">"@.len());
        } else if j == 3 {
            reveal_strlit("intersection-atom");
            assert("intersection-atom"@.len() != ">"@.len());
        } else if j == 4 {
            reveal_strlit("subtraction-atom");
            assert("subtraction-atom"@.len() != ">"@.len());
        } else if j == 5 {
            reveal_strlit("superpose");
            assert("superpose"@.len() != ">"@.len());
        } else if j == 6 {
            reveal_strlit("amb");
            assert("amb"@.len() != ">"@.len());
        } else if j == 7 {
            reveal_strlit("guard");
            assert("guard"@.len() != ">"@.len());
        } else if j == 8 {
            reveal_strlit("commit");
            assert("commit"@.len() != ">"@.len());
        } else if j == 9 {
            reveal_strlit("backtrack");
            assert("backtrack"@.len() != ">"@.len());
        } else if j == 10 {
            reveal_strlit("quote");
            assert("quote"@.len() != ">"@.len());
        }
    }
    lemma_last_named_none(signature_part8(), ">"@);
    assert forall|j: int| 0 <= j < signature_part9().len() implies #[trigger] signature_part9()[j].name != ">"@ by {
        if j == 0 {
            reveal_strlit("unquote");
            assert("unquote"@.len() != ">"@.len());
        } else if j == 1 {
            reveal_strlit("eval");
            assert("eval"@.len() != ">"@.len());
        } else if j == 2 {
            reveal_strlit("!");
            assert("!"@[0] != ">"@[0]);
        } else if j == 3 {
            reveal_strlit("sealed");
            assert("sealed"@.len() != ">"@.len());
        } else if j == 4 {
            reveal_strlit("atom-subst");
            assert("atom-subst"@.len() != ">"@.len());
        } else if j == 5 {
            reveal_strlit("nop");
            assert("nop"@.len() != ">"@.len());
        } else if j == 6 {
            reveal_strlit("get-type");
            assert("get-type"@.len() != ">"@.len());
        } else if j == 7 {
            reveal_strlit("check-type");
            assert("check-type"@.len() != ">"@.len());
        } else if j == 8 {
            reveal_strlit("get-metatype");
            assert("get-metatype"@.len() != ">"@.len());
        } else if j == 9 {
            reveal_strlit("validate-atom");
            assert("validate-atom"@.len() != ">"@.len());
        } else if j == 10 {
            reveal_strlit("get-type-space");
            assert("get-type-space"@.len() != ">"@.len());
        }
    }
    lemma_last_named_none(signature_part9(), ">"@);
    assert forall|j: int| 0 <= j < signature_part10().len() implies #[trigger] signature_part10()[j].name != ">"@ by {
        if j == 0 {
            reveal_strlit("is-function");
            assert("is-function"@.len() != ">"@.len());
        } else if j == 1 {
            reveal_strlit("type-cast");
            assert("type-cast"@.len() != ">"@.len());
        } else if j == 2 {
            reveal_strlit("metta");
            assert("metta"@.len() != ">"@.len());
        } else if j == 3 {
            reveal_strlit("match-type-or");
            assert("match-type-or"@.len() != ">"@.len());
        } else if j == 4 {
            reveal_strlit("first-from-pair");
            assert("first-from-pair"@.len() != ">"@.len());
        } else if j == 5 {
            reveal_strlit(":<");
            assert(":<"@.len() != ">"@.len());
        } else if j == 6 {
            reveal_strlit("Error");
            assert("Error"@.len() != ">"@.len());
        } else if j == 7 {
            reveal_strlit("error");
            assert("error"@.len() != ">"@.len());
        } else if j == 8 {
            reveal_strlit("is-error");
            assert("is-error"@.len() != ">"@.len());
        } else if j == 9 {
            reveal_strlit("catch");
            assert("catch"@.len() != ">"@.len());
        } else if j == 10 {
            reveal_strlit("new-state");
            assert("new-state"@.len() != ">"@.len());
        }
    }
    lemma_last_named_none(signature_part10(), ">"@);
    assert forall|j: int| 0 <= j < signature_part11().len() implies #[trigger] signature_part11()[j].name != ">"@ by {
        if j == 0 {
            reveal_strlit("get-state");
            assert("get-state"@.len() != ">"@.len());
        } else if j == 1 {
            reveal_strlit("change-state!");
            assert("change-state!"@.len() != ">"@.len());
        } else if j == 2 {
            reveal_strlit("println!");
            assert("println!"@.len() != ">"@.len());
        } else if j == 3 {
            reveal_strlit("trace!");
            assert("trace!"@.len() != ">"@.len());
        } else if j == 4 {
            reveal_strlit("repr");
            assert("repr"@.len() != ">"@.len());
        } else if j == 5 {
            reveal_strlit("format-args");
            assert("format-args"@.len() != ">"@.len());
        } else if j == 6 {
            reveal_strlit("=alpha");
            assert("=alpha"@.len() != ">"@.len());
        } else if j == 7 {
            reveal_strlit("include");
            assert("include"@.len() != ">"@.len());
        } else if j == 8 {
            reveal_strlit("import!");
            assert("import!"@.len() != ">"@.len());
        } else if j == 9 {
            reveal_strlit("bind!");
            assert("bind!"@.len() != ">"@.len());
        } else if j == 10 {
            reveal_strlit("mod-space!");
            assert("mod-space!"@.len() != ">"@.len());
        }
    }
    lemma_last_named_none(signature_part11(), ">"@);
    assert forall|j: int| 0 <= j < signature_part12().len() implies #[trigger] signature_part12()[j].name != ">"@ by {
        if j == 0 {
            reveal_strlit("print-mods!");
            assert("print-mods!"@.len() != ">"@.len());
        } else if j == 1 {
            reveal_strlit("pragma!");
            assert("pragma!"@.len() != ">"@.len());
        } else if j == 2 {
            reveal_strlit("new-memo");
            assert("new-memo"@.len() != ">"@.len());
        } else if j == 3 {
            reveal_strlit("memo");
            assert("memo"@.len() != ">"@.len());
        } else if j == 4 {
            reveal_strlit("memo-first");
            assert("memo-first"@.len() != ">"@.len());
        } else if j == 5 {
            reveal_strlit("clear-memo!");
            assert("clear-memo!"@.len() != ">"@.len());
        } else if j == 6 {
            reveal_strlit("memo-stats");
            assert("memo-stats"@.len() != ">"@.len());
        } else if j == 7 {
            reveal_strlit("assertEqual");
            assert("assertEqual"@.len() != ">"@.len());
        } else if j == 8 {
            reveal_strlit("assertEqualMsg");
            assert("assertEqualMsg"@.len() != ">"@.len());
        } else if j == 9 {
            reveal_strlit("assertAlphaEqual");
            assert("assertAlphaEqual"@.len() != ">"@.len());
        } else if j == 10 {
            reveal_strlit("assertAlphaEqualMsg");
            assert("assertAlphaEqualMsg"@.len() != ">"@.len());
        }
    }
    lemma_last_named_none(signature_part12(), ">"@);
    assert forall|j: int| 0 <= j < signature_part13().len() implies #[trigger] signature_part13()[j].name != ">"@ by {
        if j == 0 {
            reveal_strlit("assertEqualToResult");
            assert("assertEqualToResult"@.len() != ">"@.len());
        } else if j == 1 {
            reveal_strlit("assertEqualToResultMsg");
            assert("assertEqualToResultMsg"@.len() != ">"@.len());
        } else if j == 2 {
            reveal_strlit("assertAlphaEqualToResult");
            assert("assertAlphaEqualToResult"@.len() != ">"@.len());
        } else if j == 3 {
            reveal_strlit("assertAlphaEqualToResultMsg");
            assert("assertAlphaEqualToResultMsg"@.len() != ">"@.len());
        }
    }
    lemma_last_named_none(signature_part13(), ">"@);
    lemma_found_base(3, ">"@, 3);
    lemma_found_step(4, ">"@, signature_prefix(3).len() - signature_part(3).len() + 3);
    lemma_found_step(5, ">"@, signature_prefix(3).len() - signature_part(3).len() + 3);
    lemma_found_step(6, ">"@, signature_prefix(3).len() - signature_part(3).len() + 3);
    lemma_found_step(7, ">"@, signature_prefix(3).len() - signature_part(3).len() + 3);
    lemma_found_step(8, ">"@, signature_prefix(3).len() - signature_part(3).len() + 3);
    lemma_found_step(9, ">"@, signature_prefix(3).len() - signature_part(3).len() + 3);
    lemma_found_step(10, ">"@, signature_prefix(3).len() - signature_part(3).len() + 3);
    lemma_found_step(11, ">"@, signature_prefix(3).len() - signature_part(3).len() + 3);
    lemma_found_step(12, ">"@, signature_prefix(3).len() - signature_part(3).len() + 3);
    lemma_found_step(13, ">"@, signature_prefix(3).len() - signature_part(3).len() + 3);
    lemma_table_prefix();
}

/// The registry holds `>=` once, as entry 4 of part 4.
proof fn lemma_registered_ge()
    ensures
        signature_of(">="@) == Some(signature_part3()[4]),
{
    broadcast use vstd::string::group_string_axioms;

    reveal_strlit(">=");
    assert forall|j: int| 5 <= j < signature_part3().len() implies #[trigger] signature_part3()[j].name != ">="@ by {
        if j == 5 {
            reveal_strlit("==");
            assert("=="@[0] != ">="@[0]);
        } else if j == 6 {
            reveal_strlit("!=");
            assert("!="@[0] != ">="@[0]);
        } else if j == 7 {
            reveal_strlit("and");
            assert("and"@.len() != ">="@.len());
        } else if j == 8 {
            reveal_strlit("or");
            assert("or"@[0] != ">="@[0]);
        } else if j == 9 {
            reveal_strlit("not");
            assert("not"@.len() != ">="@.len());
        } else if j == 10 {
            reveal_strlit("xor");
            assert("xor"@.len() != ">="@.len());
        }
    }
    lemma_last_named_at(signature_part3(), ">="@, 4);
    assert forall|j: int| 0 <= j < signature_part4().len() implies #[trigger] signature_part4()[j].name != ">="@ by {
        if j == 0 {
            reveal_strlit("if");
            assert("if"@[0] != ">="@[0]);
        } else if j == 1 {
            reveal_strlit("case");
            assert("case"@.len() != ">="@.len());
        } else if j == 2 {
            reveal_strlit("switch");
            assert("switch"@.len() != ">="@.len());
        } else if j == 3 {
            reveal_strlit("if-equal");
            assert("if-equal"@.len() != ">="@.len());
        } else if j == 4 {
            reveal_strlit("if-reducible");
            assert("if-reducible"@.len() != ">="@.len());
        } else if j == 5 {
            reveal_strlit("let");
            assert("let"@.len() != ">="@.len());
        } else if j == 6 {
            reveal_strlit("let*");
            assert("let*"@.len() != ">="@.len());
        } else if j == 7 {
            reveal_strlit("unify");
            assert("unify"@.len() != ">="@.len());
        } else if j == 8 {
            reveal_strlit("function");
            assert("function"@.len() != ">="@.len());
        } else if j == 9 {
            reveal_strlit("return");
            assert("return"@.len() != ">="@.len());
        } else if j == 10 {
            reveal_strlit("chain");
            assert("chain"@.len() != ">="@.len());
        }
    }
    lemma_last_named_none(signature_part4(), ">="@);
    assert forall|j: int| 0 <= j < signature_part5().len() implies #[trigger] signature_part5()[j].name != ">="@ by {
        if j == 0 {
            reveal_strlit("=");
            assert("="@.len() != ">="@.len());
        } else if j == 1 {
            reveal_strlit(":");
            assert(":"@.len() != ">="@.len());
        } else if j == 2 {
            reveal_strlit("match");
            assert("match"@.len() != ">="@.len());
        } else if j == 3 {
            reveal_strlit("match-or");
            assert("match-or"@.len() != ">="@.len());
        } else if j == 4 {
            reveal_strlit("new-space");
            assert("new-space"@.len() != ">="@.len());
        } else if j == 5 {
            reveal_strlit("add-atom");
            assert("add-atom"@.len() != ">="@.len());
        } else if j == 6 {
            reveal_strlit("remove-atom");
            assert("remove-atom"@.len() != ">="@.len());
        } else if j == 7 {
            reveal_strlit("get-atoms");
            assert("get-atoms"@.len() != ">="@.len());
        } else if j == 8 {
            reveal_strlit("collapse");
            assert("collapse"@.len() != ">="@.len());
        } else if j == 9 {
            reveal_strlit("collapse-bind");
            assert("collapse-bind"@.len() != ">="@.len());
        } else if j == 10 {
            reveal_strlit("car-atom");
            assert("car-atom"@.len() != ">="@.len());
        }
    }
    lemma_last_named_none(signature_part5(), ">="@);
    assert forall|j: int| 0 <= j < signature_part6().len() implies #[trigger] signature_part6()[j].name != ">="@ by {
        if j == 0 {
            reveal_strlit("cdr-atom");
            assert("cdr-atom"@.len() != ">="@.len());
        } else if j == 1 {
            reveal_strlit("cons-atom");
            assert("cons-atom"@.len() != ">="@.len());
        } else if j == 2 {
            reveal_strlit("decons-atom");
            assert("decons-atom"@.len() != ">="@.len());
        } else if j == 3 {
            reveal_strlit("size-atom");
            assert("size-atom"@.len() != ">="@.len());
        } else if j == 4 {
            reveal_strlit("max-atom");
            assert("max-atom"@.len() != ">="@.len());
        } else if j == 5 {
            reveal_strlit("min-atom");
            assert("min-atom"@.len() != ">="@.len());
        } else if j == 6 {
            reveal_strlit("index-atom");
            assert("index-atom"@.len() != ">="@.len());
        } else if j == 7 {
            reveal_strlit("empty");
            assert("empty"@.len() != ">="@.len());
        } else if j == 8 {
            reveal_strlit("tuple-concat");
            assert("tuple-concat"@.len() != ">="@.len());
        } else if j == 9 {
            reveal_strlit("tuple-count");
            assert("tuple-count"@.len() != ">="@.len());
        } else if j == 10 {
            reveal_strlit("without");
            assert("without"@.len() != ">="@.len());
        }
    }
    lemma_last_named_none(signature_part6(), ">="@);
    assert forall|j: int| 0 <= j < signature_part7().len() implies #[trigger] signature_part7()[j].name != ">="@ by {
        if j == 0 {
            reveal_strlit("element-of");
            assert("element-of"@.len() != ">="@.len());
        } else if j == 1 {
            reveal_strlit("range");
            assert("range"@.len() != ">="@.len());
        } else if j == 2 {
            reveal_strlit("reverse-atom");
            assert("reverse-atom"@.len() != ">="@.len());
        } else if j == 3 {
            reveal_strlit("flatten-atom");
            assert("flatten-atom"@.len() != ">="@.len());
        } else if j == 4 {
            reveal_strlit("zip-atom");
            assert("zip-atom"@.len() != ">="@.len());
        } else if j == 5 {
            reveal_strlit("take-atom");
            assert("take-atom"@.len() != ">="@.len());
        } else if j == 6 {
            reveal_strlit("drop-atom");
            assert("drop-atom"@.len() != ">="@.len());
        } else if j == 7 {
            reveal_strlit("map-atom");
            assert("map-atom"@.len() != ">="@.len());
        } else if j == 8 {
            reveal_strlit("filter-atom");
            assert("filter-atom"@.len() != ">="@.len());
        } else if j == 9 {
            reveal_strlit("foldl-atom");
            assert("foldl-atom"@.len() != ">="@.len());
        } else if j == 10 {
            reveal_strlit("sort-tuple");
            assert("sort-tuple"@.len() != ">="@.len());
        }
    }
    lemma_last_named_none(signature_part7(), ">="@);
    assert forall|j: int| 0 <= j < signature_part8().len() implies #[trigger] signature_part8()[j].name != ">="@ by {
        if j == 0 {
            reveal_strlit("best-candidate");
            assert("best-candidate"@.len() != ">="@.len());
        } else if j == 1 {
            reveal_strlit("unique-atom");
            assert("unique-atom"@.len() != ">="@.len());
        } else if j == 2 {
            reveal_strlit("union-atom");
            assert("union-atom"@.len() != ">="@.len());
        } else if j == 3 {
            reveal_strlit("intersection-atom");
            assert("intersection-atom"@.len() != ">="@.len());
        } else if j == 4 {
            reveal_strlit("subtraction-atom");
            assert("subtraction-atom"@.len() != ">="@.len());
        } else if j == 5 {
            reveal_strlit("superpose");
            assert("superpose"@.len() != ">="@.len());
        } else if j == 6 {
            reveal_strlit("amb");
            assert("amb"@.len() != ">="@.len());
        } else if j == 7 {
            reveal_strlit("guard");
            assert("guard"@.len() != ">="@.len());
        } else if j == 8 {
            reveal_strlit("commit");
            assert("commit"@.len() != ">="@.len());
        } else if j == 9 {
            reveal_strlit("backtrack");
            assert("backtrack"@.len() != ">="@.len());
        } else if j == 10 {
            reveal_strlit("quote");
            assert("quote"@.len() != ">="@.len());
        }
    }
    lemma_last_named_none(signature_part8(), ">="@);
    assert forall|j: int| 0 <= j < signature_part9().len() implies #[trigger] signature_part9()[j].name != ">="@ by {
        if j == 0 {
            reveal_strlit("unquote");
            assert("unquote"@.len() != ">="@.len());
        } else if j == 1 {
            reveal_strlit("eval");
            assert("eval"@.len() != ">="@.len());
        } else if j == 2 {
            reveal_strlit("!");
            assert("!"@.len() != ">="@.len());
        } else if j == 3 {
            reveal_strlit("sealed");
            assert("sealed"@.len() != ">="@.len());
        } else if j == 4 {
            reveal_strlit("atom-subst");
            assert("atom-subst"@.len() != ">="@.len());
        } else if j == 5 {
            reveal_strlit("nop");
            assert("nop"@.len() != ">="@.len());
        } else if j == 6 {
            reveal_strlit("get-type");
            assert("get-type"@.len() != ">="@.len());
        } else if j == 7 {
            reveal_strlit("check-type");
            assert("check-type"@.len() != ">="@.len());
        } else if j == 8 {
            reveal_strlit("get-metatype");
            assert("get-metatype"@.len() != ">="@.len());
        } else if j == 9 {
            reveal_strlit("validate-atom");
            assert("validate-atom"@.len() != ">="@.len());
        } else if j == 10 {
            reveal_strlit("get-type-space");
            assert("get-type-space"@.len() != ">="@.len());
        }
    }
    lemma_last_named_none(signature_part9(), ">="@);
    assert forall|j: int| 0 <= j < signature_part10().len() implies #[trigger] signature_part10()[j].name != ">="@ by {
        if j == 0 {
            reveal_strlit("is-function");
            assert("is-function"@.len() != ">="@.len());
        } else if j == 1 {
            reveal_strlit("type-cast");
            assert("type-cast"@.len() != ">="@.len());
        } else if j == 2 {
            reveal_strlit("metta");
            assert("metta"@.len() != ">="@.len());
        } else if j == 3 {
            reveal_strlit("match-type-or");
            assert("match-type-or"@.len() != ">="@.len());
        } else if j == 4 {
            reveal_strlit("first-from-pair");
            assert("first-from-pair"@.len() != ">="@.len());
        } else if j == 5 {
            reveal_strlit(":<");
            assert(":<"@[0] != ">="@[0]);
        } else if j == 6 {
            reveal_strlit("Error");
            assert("Error"@.len() != ">="@.len());
        } else if j == 7 {
            reveal_strlit("error");
            assert("error"@.len() != ">="@.len());
        } else if j == 8 {
            reveal_strlit("is-error");
            assert("is-error"@.len() != ">="@.len());
        } else if j == 9 {
            reveal_strlit("catch");
            assert("catch"@.len() != ">="@.len());
        } else if j == 10 {
            reveal_strlit("new-state");
            assert("new-state"@.len() != ">="@.len());
        }
    }
    lemma_last_named_none(signature_part10(), ">="@);
    assert forall|j: int| 0 <= j < signature_part11().len() implies #[trigger] signature_part11()[j].name != ">="@ by {
        if j == 0 {
            reveal_strlit("get-state");
            assert("get-state"@.len() != ">="@.len());
        } else if j == 1 {
            reveal_strlit("change-state!");
            assert("change-state!"@.len() != ">="@.len());
        } else if j == 2 {
            reveal_strlit("println!");
            assert("println!"@.len() != ">="@.len());
        } else if j == 3 {
            reveal_strlit("trace!");
            assert("trace!"@.len() != ">="@.len());
        } else if j == 4 {
            reveal_strlit("repr");
            assert("repr"@.len() != ">="@.len());
        } else if j == 5 {
            reveal_strlit("format-args");
            assert("format-args"@.len() != ">="@.len());
        } else if j == 6 {
            reveal_strlit("=alpha");
            assert("=alpha"@.len() != ">="@.len());
        } else if j == 7 {
            reveal_strlit("include");
            assert("include"@.len() != ">="@.len());
        } else if j == 8 {
            reveal_strlit("import!");
            assert("import!"@.len() != ">="@.len());
        } else if j == 9 {
            reveal_strlit("bind!");
            assert("bind!"@.len() != ">="@.len());
        } else if j == 10 {
            reveal_strlit("mod-space!");
            assert("mod-space!"@.len() != ">="@.len());
        }
    }
    lemma_last_named_none(signature_part11(), ">="@);
    assert forall|j: int| 0 <= j < signature_part12().len() implies #[trigger] signature_part12()[j].name != ">="@ by {
        if j == 0 {
            reveal_strlit("print-mods!");
            assert("print-mods!"@.len() != ">="@.len());
        } else if j == 1 {
            reveal_strlit("pragma!");
            assert("pragma!"@.len() != ">="@.len());
        } else if j == 2 {
            reveal_strlit("new-memo");
            assert("new-memo"@.len() != ">="@.len());
        } else if j == 3 {
            reveal_strlit("memo");
            assert("memo"@.len() != ">="@.len());
        } else if j == 4 {
            reveal_strlit("memo-first");
            assert("memo-first"@.len() != ">="@.len());
        } else if j == 5 {
            reveal_strlit("clear-memo!");
            assert("clear-memo!"@.len() != ">="@.len());
        } else if j == 6 {
            reveal_strlit("memo-stats");
            assert("memo-stats"@.len() != ">="@.len());
        } else if j == 7 {
            reveal_strlit("assertEqual");
            assert("assertEqual"@.len() != ">="@.len());
        } else if j == 8 {
            reveal_strlit("assertEqualMsg");
            assert("assertEqualMsg"@.len() != ">="@.len());
        } else if j == 9 {
            reveal_strlit("assertAlphaEqual");
            assert("assertAlphaEqual"@.len() != ">="@.len());
        } else if j == 10 {
            reveal_strlit("assertAlphaEqualMsg");
            assert("assertAlphaEqualMsg"@.len() != ">="@.len());
        }
    }
    lemma_last_named_none(signature_part12(), ">="@);
    assert forall|j: int| 0 <= j < signature_part13().len() implies #[trigger] signature_part13()[j].name != ">="@ by {
        if j == 0 {
            reveal_strlit("assertEqualToResult");
            assert("assertEqualToResult"@.len() != ">="@.len());
        } else if j == 1 {
            reveal_strlit("assertEqualToResultMsg");
            assert("assertEqualToResultMsg"@.len() != ">="@.len());
        } else if j == 2 {
            reveal_strlit("assertAlphaEqualToResult");
            assert("assertAlphaEqualToResult"@.len() != ">="@.len());
        } else if j == 3 {
            reveal_strlit("assertAlphaEqualToResultMsg");
            assert("assertAlphaEqualToResultMsg"@.len() != ">="@.len());
        }
    }
    lemma_last_named_none(signature_part13(), ">="@);
    lemma_found_base(3, ">="@, 4);
    lemma_found_step(4, ">="@, signature_prefix(3).len() - signature_part(3).len() + 4);
    lemma_found_step(5, ">="@, signature_prefix(3).len() - signature_part(3).len() + 4);
    lemma_found_step(6, ">="@, signature_prefix(3).len() - signature_part(3).len() + 4);
    lemma_found_step(7, ">="@, signature_prefix(3).len() - signature_part(3).len() + 4);
    lemma_found_step(8, ">="@, signature_prefix(3).len() - signature_part(3).len() + 4);
    lemma_found_step(9, ">="@, signature_prefix(3).len() - signature_part(3).len() + 4);
    lemma_found_step(10, ">="@, signature_prefix(3).len() - signature_part(3).len() + 4);
    lemma_found_step(11, ">="@, signature_prefix(3).len() - signature_part(3).len() + 4);
    lemma_found_step(12, ">="@, signature_prefix(3).len() - signature_part(3).len() + 4);
    lemma_found_step(13, ">="@, signature_prefix(3).len() - signature_part(3).len() + 4);
    lemma_table_prefix();
}

/// The registry holds `==` once, as entry 5 of part 4.
proof fn lemma_registered_eq()
    ensures
        signature_of("=="@) == Some(signature_part3()[5]),
{
    broadcast use vstd::string::group_string_axioms;

    reveal_strlit("==");
    assert forall|j: int| 6 <= j < signature_part3().len() implies #[trigger] signature_part3()[j].name != "=="@ by {
        if j == 6 {
            reveal_strlit("!=");
            assert("!="@[0] != "=="@[0]);
        } else if j == 7 {
            reveal_strlit("and");
            assert("and"@.len() != "=="@.len());
        } else if j == 8 {
            reveal_strlit("or");
            assert("or"@[0] != "=="@[0]);
        } else if j == 9 {
            reveal_strlit("not");
            assert("not"@.len() != "=="@.len());
        } else if j == 10 {
            reveal_strlit("xor");
            assert("xor"@.len() != "=="@.len());
        }
    }
    lemma_last_named_at(signature_part3(), "=="@, 5);
    assert forall|j: int| 0 <= j < signature_part4().len() implies #[trigger] signature_part4()[j].name != "=="@ by {
        if j == 0 {
            reveal_strlit("if");
            assert("if"@[0] != "=="@[0]);
        } else if j == 1 {
            reveal_strlit("case");
            assert("case"@.len() != "=="@.len());
        } else if j == 2 {
            reveal_strlit("switch");
            assert("switch"@.len() != "=="@.len());
        } else if j == 3 {
            reveal_strlit("if-equal");
            assert("if-equal"@.len() != "=="@.len());
        } else if j == 4 {
            reveal_strlit("if-reducible");
            assert("if-reducible"@.len() != "=="@.len());
        } else if j == 5 {
            reveal_strlit("let");
            assert("let"@.len() != "=="@.len());
        } else if j == 6 {
            reveal_strlit("let*");
            assert("let*"@.len() != "=="@.len());
        } else if j == 7 {
            reveal_strlit("unify");
            assert("unify"@.len() != "=="@.len());
        } else if j == 8 {
            reveal_strlit("function");
            assert("function"@.len() != "=="@.len());
        } else if j == 9 {
            reveal_strlit("return");
            assert("return"@.len() != "=="@.len());
        } else if j == 10 {
            reveal_strlit("chain");
            assert("chain"@.len() != "=="@.len());
        }
    }
    lemma_last_named_none(signature_part4(), "=="@);
    assert forall|j: int| 0 <= j < signature_part5().len() implies #[trigger] signature_part5()[j].name != "=="@ by {
        if j == 0 {
            reveal_strlit("=");
            assert("="@.len() != "=="@.len());
        } else if j == 1 {
            reveal_strlit(":");
            assert(":"@.len() != "=="@.len());
        } else if j == 2 {
            reveal_strlit("match");
            assert("match"@.len() != "=="@.len());
        } else if j == 3 {
            reveal_strlit("match-or");
            assert("match-or"@.len() != "=="@.len());
        } else if j == 4 {
            reveal_strlit("new-space");
            assert("new-space"@.len() != "=="@.len());
        } else if j == 5 {
            reveal_strlit("add-atom");
            assert("add-atom"@.len() != "=="@.len());
        } else if j == 6 {
            reveal_strlit("remove-atom");
            assert("remove-atom"@.len() != "=="@.len());
        } else if j == 7 {
            reveal_strlit("get-atoms");
            assert("get-atoms"@.len() != "=="@.len());
        } else if j == 8 {
            reveal_strlit("collapse");
            assert("collapse"@.len() != "=="@.len());
        } else if j == 9 {
            reveal_strlit("collapse-bind");
            assert("collapse-bind"@.len() != "=="@.len());
        } else if j == 10 {
            reveal_strlit("car-atom");
            assert("car-atom"@.len() != "=="@.len());
        }
    }
    lemma_last_named_none(signature_part5(), "=="@);
    assert forall|j: int| 0 <= j < signature_part6().len() implies #[trigger] signature_part6()[j].name != "=="@ by {
        if j == 0 {
            reveal_strlit("cdr-atom");
            assert("cdr-atom"@.len() != "=="@.len());
        } else if j == 1 {
            reveal_strlit("cons-atom");
            assert("cons-atom"@.len() != "=="@.len());
        } else if j == 2 {
            reveal_strlit("decons-atom");
            assert("decons-atom"@.len() != "=="@.len());
        } else if j == 3 {
            reveal_strlit("size-atom");
            assert("size-atom"@.len() != "=="@.len());
        } else if j == 4 {
            reveal_strlit("max-atom");
            assert("max-atom"@.len() != "=="@.len());
        } else if j == 5 {
            reveal_strlit("min-atom");
            assert("min-atom"@.len() != "=="@.len());
        } else if j == 6 {
            reveal_strlit("index-atom");
            assert("index-atom"@.len() != "=="@.len());
        } else if j == 7 {
            reveal_strlit("empty");
            assert("empty"@.len() != "=="@.len());
        } else if j == 8 {
            reveal_strlit("tuple-concat");
            assert("tuple-concat"@.len() != "=="@.len());
        } else if j == 9 {
            reveal_strlit("tuple-count");
            assert("tuple-count"@.len() != "=="@.len());
        } else if j == 10 {
            reveal_strlit("without");
            assert("without"@.len() != "=="@.len());
        }
    }
    lemma_last_named_none(signature_part6(), "=="@);
    assert forall|j: int| 0 <= j < signature_part7().len() implies #[trigger] signature_part7()[j].name != "=="@ by {
        if j == 0 {
            reveal_strlit("element-of");
            assert("element-of"@.len() != "=="@.len());
        } else if j == 1 {
            reveal_strlit("range");
            assert("range"@.len() != "=="@.len());
        } else if j == 2 {
            reveal_strlit("reverse-atom");
            assert("reverse-atom"@.len() != "=="@.len());
        } else if j == 3 {
            reveal_strlit("flatten-atom");
            assert("flatten-atom"@.len() != "=="@.len());
        } else if j == 4 {
            reveal_strlit("zip-atom");
            assert("zip-atom"@.len() != "=="@.len());
        } else if j == 5 {
            reveal_strlit("take-atom");
            assert("take-atom"@.len() != "=="@.len());
        } else if j == 6 {
            reveal_strlit("drop-atom");
            assert("drop-atom"@.len() != "=="@.len());
        } else if j == 7 {
            reveal_strlit("map-atom");
            assert("map-atom"@.len() != "=="@.len());
        } else if j == 8 {
            reveal_strlit("filter-atom");
            assert("filter-atom"@.len() != "=="@.len());
        } else if j == 9 {
            reveal_strlit("foldl-atom");
            assert("foldl-atom"@.len() != "=="@.len());
        } else if j == 10 {
            reveal_strlit("sort-tuple");
            assert("sort-tuple"@.len() != "=="@.len());
        }
    }
    lemma_last_named_none(signature_part7(), "=="@);
    assert forall|j: int| 0 <= j < signature_part8().len() implies #[trigger] signature_part8()[j].name != "=="@ by {
        if j == 0 {
            reveal_strlit("best-candidate");
            assert("best-candidate"@.len() != "=="@.len());
        } else if j == 1 {
            reveal_strlit("unique-atom");
            assert("unique-atom"@.len() != "=="@.len());
        } else if j == 2 {
            reveal_strlit("union-atom");
            assert("union-atom"@.len() != "=="@.len());
        } else if j == 3 {
            reveal_strlit("intersection-atom");
            assert("intersection-atom"@.len() != "=="@.len());
        } else if j == 4 {
            reveal_strlit("subtraction-atom");
            assert("subtraction-atom"@.len() != "=="@.len());
        } else if j == 5 {
            reveal_strlit("superpose");
            assert("superpose"@.len() != "=="@.len());
        } else if j == 6 {
            reveal_strlit("amb");
            assert("amb"@.len() != "=="@.len());
        } else if j == 7 {
            reveal_strlit("guard");
            assert("guard"@.len() != "=="@.len());
        } else if j == 8 {
            reveal_strlit("commit");
            assert("commit"@.len() != "=="@.len());
        } else if j == 9 {
            reveal_strlit("backtrack");
            assert("backtrack"@.len() != "=="@.len());
        } else if j == 10 {
            reveal_strlit("quote");
            assert("quote"@.len() != "=="@.len());
        }
    }
    lemma_last_named_none(signature_part8(), "=="@);
    assert forall|j: int| 0 <= j < signature_part9().len() implies #[trigger] signature_part9()[j].name != "=="@ by {
        if j == 0 {
            reveal_strlit("unquote");
            assert("unquote"@.len() != "=="@.len());
        } else if j == 1 {
            reveal_strlit("eval");
            assert("eval"@.len() != "=="@.len());
        } else if j == 2 {
            reveal_strlit("!");
            assert("!"@.len() != "=="@.len());
        } else if j == 3 {
            reveal_strlit("sealed");
            assert("sealed"@.len() != "=="@.len());
        } else if j == 4 {
            reveal_strlit("atom-subst");
            assert("atom-subst"@.len() != "=="@.len());
        } else if j == 5 {
            reveal_strlit("nop");
            assert("nop"@.len() != "=="@.len());
        } else if j == 6 {
            reveal_strlit("get-type");
            assert("get-type"@.len() != "=="@.len());
        } else if j == 7 {
            reveal_strlit("check-type");
            assert("check-type"@.len() != "=="@.len());
        } else if j == 8 {
            reveal_strlit("get-metatype");
            assert("get-metatype"@.len() != "=="@.len());
        } else if j == 9 {
            reveal_strlit("validate-atom");
            assert("validate-atom"@.len() != "=="@.len());
        } else if j == 10 {
            reveal_strlit("get-type-space");
            assert("get-type-space"@.len() != "=="@.len());
        }
    }
    lemma_last_named_none(signature_part9(), "=="@);
    assert forall|j: int| 0 <= j < signature_part10().len() implies #[trigger] signature_part10()[j].name != "=="@ by {
        if j == 0 {
            reveal_strlit("is-function");
            assert("is-function"@.len() != "=="@.len());
        } else if j == 1 {
            reveal_strlit("type-cast");
            assert("type-cast"@.len() != "=="@.len());
        } else if j == 2 {
            reveal_strlit("metta");
            assert("metta"@.len() != "=="@.len());
        } else if j == 3 {
            reveal_strlit("match-type-or");
            assert("match-type-or"@.len() != "=="@.len());
        } else if j == 4 {
            reveal_strlit("first-from-pair");
            assert("first-from-pair"@.len() != "=="@.len());
        } else if j == 5 {
            reveal_strlit(":<");
            assert(":<"@[0] != "=="@[0]);
        } else if j == 6 {
            reveal_strlit("Error");
            assert("Error"@.len() != "=="@.len());
        } else if j == 7 {
            reveal_strlit("error");
            assert("error"@.len() != "=="@.len());
        } else if j == 8 {
            reveal_strlit("is-error");
            assert("is-error"@.len() != "=="@.len());
        } else if j == 9 {
            reveal_strlit("catch");
            assert("catch"@.len() != "=="@.len());
        } else if j == 10 {
            reveal_strlit("new-state");
            assert("new-state"@.len() != "=="@.len());
        }
    }
    lemma_last_named_none(signature_part10(), "=="@);
    assert forall|j: int| 0 <= j < signature_part11().len() implies #[trigger] signature_part11()[j].name != "=="@ by {
        if j == 0 {
            reveal_strlit("get-state");
            assert("get-state"@.len() != "=="@.len());
        } else if j == 1 {
            reveal_strlit("change-state!");
            assert("change-state!"@.len() != "=="@.len());
        } else if j == 2 {
            reveal_strlit("println!");
            assert("println!"@.len() != "=="@.len());
        } else if j == 3 {
            reveal_strlit("trace!");
            assert("trace!"@.len() != "=="@.len());
        } else if j == 4 {
            reveal_strlit("repr");
            assert("repr"@.len() != "=="@.len());
        } else if j == 5 {
            reveal_strlit("format-args");
            assert("format-args"@.len() != "=="@.len());
        } else if j == 6 {
            reveal_strlit("=alpha");
            assert("=alpha"@.len() != "=="@.len());
        } else if j == 7 {
            reveal_strlit("include");
            assert("include"@.len() != "=="@.len());
        } else if j == 8 {
            reveal_strlit("import!");
            assert("import!"@.len() != "=="@.len());
        } else if j == 9 {
            reveal_strlit("bind!");
            assert("bind!"@.len() != "=="@.len());
        } else if j == 10 {
            reveal_strlit("mod-space!");
            assert("mod-space!"@.len() != "=="@.len());
        }
    }
    lemma_last_named_none(signature_part11(), "=="@);
    assert forall|j: int| 0 <= j < signature_part12().len() implies #[trigger] signature_part12()[j].name != "=="@ by {
        if j == 0 {
            reveal_strlit("print-mods!");
            assert("print-mods!"@.len() != "=="@.len());
        } else if j == 1 {
            reveal_strlit("pragma!");
            assert("pragma!"@.len() != "=="@.len());
        } else if j == 2 {
            reveal_strlit("new-memo");
            assert("new-memo"@.len() != "=="@.len());
        } else if j == 3 {
            reveal_strlit("memo");
            assert("memo"@.len() != "=="@.len());
        } else if j == 4 {
            reveal_strlit("memo-first");
            assert("memo-first"@.len() != "=="@.len());
        } else if j == 5 {
            reveal_strlit("clear-memo!");
            assert("clear-memo!"@.len() != "=="@.len());
        } else if j == 6 {
            reveal_strlit("memo-stats");
            assert("memo-stats"@.len() != "=="@.len());
        } else if j == 7 {
            reveal_strlit("assertEqual");
            assert("assertEqual"@.len() != "=="@.len());
        } else if j == 8 {
            reveal_strlit("assertEqualMsg");
            assert("assertEqualMsg"@.len() != "=="@.len());
        } else if j == 9 {
            reveal_strlit("assertAlphaEqual");
            assert("assertAlphaEqual"@.len() != "=="@.len());
        } else if j == 10 {
            reveal_strlit("assertAlphaEqualMsg");
            assert("assertAlphaEqualMsg"@.len() != "=="@.len());
        }
    }
    lemma_last_named_none(signature_part12(), "=="@);
    assert forall|j: int| 0 <= j < signature_part13().len() implies #[trigger] signature_part13()[j].name != "=="@ by {
        if j == 0 {
            reveal_strlit("assertEqualToResult");
            assert("assertEqualToResult"@.len() != "=="@.len());
        } else if j == 1 {
            reveal_strlit("assertEqualToResultMsg");
            assert("assertEqualToResultMsg"@.len() != "=="@.len());
        } else if j == 2 {
            reveal_strlit("assertAlphaEqualToResult");
            assert("assertAlphaEqualToResult"@.len() != "=="@.len());
        } else if j == 3 {
            reveal_strlit("assertAlphaEqualToResultMsg");
            assert("assertAlphaEqualToResultMsg"@.len() != "=="@.len());
        }
    }
    lemma_last_named_none(signature_part13(), "=="@);
    lemma_found_base(3, "=="@, 5);
    lemma_found_step(4, "=="@, signature_prefix(3).len() - signature_part(3).len() + 5);
    lemma_found_step(5, "=="@, signature_prefix(3).len() - signature_part(3).len() + 5);
    lemma_found_step(6, "=="@, signature_prefix(3).len() - signature_part(3).len() + 5);
    lemma_found_step(7, "=="@, signature_prefix(3).len() - signature_part(3).len() + 5);
    lemma_found_step(8, "=="@, signature_prefix(3).len() - signature_part(3).len() + 5);
    lemma_found_step(9, "=="@, signature_prefix(3).len() - signature_part(3).len() + 5);
    lemma_found_step(10, "=="@, signature_prefix(3).len() - signature_part(3).len() + 5);
    lemma_found_step(11, "=="@, signature_prefix(3).len() - signature_part(3).len() + 5);
    lemma_found_step(12, "=="@, signature_prefix(3).len() - signature_part(3).len() + 5);
    lemma_found_step(13, "=="@, signature_prefix(3).len() - signature_part(3).len() + 5);
    lemma_table_prefix();
}

/// The registry holds `!=` once, as entry 6 of part 4.
proof fn lemma_registered_ne()
    ensures
        signature_of("!="@) == Some(signature_part3()[6]),
{
    broadcast use vstd::string::group_string_axioms;

    reveal_strlit("!=");
    assert forall|j: int| 7 <= j < signature_part3().len() implies #[trigger] signature_part3()[j].name != "!="@ by {
        if j == 7 {
            reveal_strlit("and");
            assert("and"@.len() != "!="@.len());
        } else if j == 8 {
            reveal_strlit("or");
            assert("or"@[0] != "!="@[0]);
        } else if j == 9 {
            reveal_strlit("not");
            assert("not"@.len() != "!="@.len());
        } else if j == 10 {
            reveal_strlit("xor");
            assert("xor"@.len() != "!="@.len());
        }
    }
    lemma_last_named_at(signature_part3(), "!="@, 6);
    assert forall|j: int| 0 <= j < signature_part4().len() implies #[trigger] signature_part4()[j].name != "!="@ by {
        if j == 0 {
            reveal_strlit("if");
            assert("if"@[0] != "!="@[0]);
        } else if j == 1 {
            reveal_strlit("case");
            assert("case"@.len() != "!="@.len());
        } else if j == 2 {
            reveal_strlit("switch");
            assert("switch"@.len() != "!="@.len());
        } else if j == 3 {
            reveal_strlit("if-equal");
            assert("if-equal"@.len() != "!="@.len());
        } else if j == 4 {
            reveal_strlit("if-reducible");
            assert("if-reducible"@.len() != "!="@.len());
        } else if j == 5 {
            reveal_strlit("let");
            assert("let"@.len() != "!="@.len());
        } else if j == 6 {
            reveal_strlit("let*");
            assert("let*"@.len() != "!="@.len());
        } else if j == 7 {
            reveal_strlit("unify");
            assert("unify"@.len() != "!="@.len());
        } else if j == 8 {
            reveal_strlit("function");
            assert("function"@.len() != "!="@.len());
        } else if j == 9 {
            reveal_strlit("return");
            assert("return"@.len() != "!="@.len());
        } else if j == 10 {
            reveal_strlit("chain");
            assert("chain"@.len() != "!="@.len());
        }
    }
    lemma_last_named_none(signature_part4(), "!="@);
    assert forall|j: int| 0 <= j < signature_part5().len() implies #[trigger] signature_part5()[j].name != "!="@ by {
        if j == 0 {
            reveal_strlit("=");
            assert("="@.len() != "!="@.len());
        } else if j == 1 {
            reveal_strlit(":");
            assert(":"@.len() != "!="@.len());
        } else if j == 2 {
            reveal_strlit("match");
            assert("match"@.len() != "!="@.len());
        } else if j == 3 {
            reveal_strlit("match-or");
            assert("match-or"@.len() != "!="@.len());
        } else if j == 4 {
            reveal_strlit("new-space");
            assert("new-space"@.len() != "!="@.len());
        } else if j == 5 {
            reveal_strlit("add-atom");
            assert("add-atom"@.len() != "!="@.len());
        } else if j == 6 {
            reveal_strlit("remove-atom");
            assert("remove-atom"@.len() != "!="@.len());
        } else if j == 7 {
            reveal_strlit("get-atoms");
            assert("get-atoms"@.len() != "!="@.len());
        } else if j == 8 {
            reveal_strlit("collapse");
            assert("collapse"@.len() != "!="@.len());
        } else if j == 9 {
            reveal_strlit("collapse-bind");
            assert("collapse-bind"@.len() != "!="@.len());
        } else if j == 10 {
            reveal_strlit("car-atom");
            assert("car-atom"@.len() != "!="@.len());
        }
    }
    lemma_last_named_none(signature_part5(), "!="@);
    assert forall|j: int| 0 <= j < signature_part6().len() implies #[trigger] signature_part6()[j].name != "!="@ by {
        if j == 0 {
            reveal_strlit("cdr-atom");
            assert("cdr-atom"@.len() != "!="@.len());
        } else if j == 1 {
            reveal_strlit("cons-atom");
            assert("cons-atom"@.len() != "!="@.len());
        } else if j == 2 {
            reveal_strlit("decons-atom");
            assert("decons-atom"@.len() != "!="@.len());
        } else if j == 3 {
            reveal_strlit("size-atom");
            assert("size-atom"@.len() != "!="@.len());
        } else if j == 4 {
            reveal_strlit("max-atom");
            assert("max-atom"@.len() != "!="@.len());
        } else if j == 5 {
            reveal_strlit("min-atom");
            assert("min-atom"@.len() != "!="@.len());
        } else if j == 6 {
            reveal_strlit("index-atom");
            assert("index-atom"@.len() != "!="@.len());
        } else if j == 7 {
            reveal_strlit("empty");
            assert("empty"@.len() != "!="@.len());
        } else if j == 8 {
            reveal_strlit("tuple-concat");
            assert("tuple-concat"@.len() != "!="@.len());
        } else if j == 9 {
            reveal_strlit("tuple-count");
            assert("tuple-count"@.len() != "!="@.len());
        } else if j == 10 {
            reveal_strlit("without");
            assert("without"@.len() != "!="@.len());
        }
    }
    lemma_last_named_none(signature_part6(), "!="@);
    assert forall|j: int| 0 <= j < signature_part7().len() implies #[trigger] signature_part7()[j].name != "!="@ by {
        if j == 0 {
            reveal_strlit("element-of");
            assert("element-of"@.len() != "!="@.len());
        } else if j == 1 {
            reveal_strlit("range");
            assert("range"@.len() != "!="@.len());
        } else if j == 2 {
            reveal_strlit("reverse-atom");
            assert("reverse-atom"@.len() != "!="@.len());
        } else if j == 3 {
            reveal_strlit("flatten-atom");
            assert("flatten-atom"@.len() != "!="@.len());
        } else if j == 4 {
            reveal_strlit("zip-atom");
            assert("zip-atom"@.len() != "!="@.len());
        } else if j == 5 {
            reveal_strlit("take-atom");
            assert("take-atom"@.len() != "!="@.len());
        } else if j == 6 {
            reveal_strlit("drop-atom");
            assert("drop-atom"@.len() != "!="@.len());
        } else if j == 7 {
            reveal_strlit("map-atom");
            assert("map-atom"@.len() != "!="@.len());
        } else if j == 8 {
            reveal_strlit("filter-atom");
            assert("filter-atom"@.len() != "!="@.len());
        } else if j == 9 {
            reveal_strlit("foldl-atom");
            assert("foldl-atom"@.len() != "!="@.len());
        } else if j == 10 {
            reveal_strlit("sort-tuple");
            assert("sort-tuple"@.len() != "!="@.len());
        }
    }
    lemma_last_named_none(signature_part7(), "!="@);
    assert forall|j: int| 0 <= j < signature_part8().len() implies #[trigger] signature_part8()[j].name != "!="@ by {
        if j == 0 {
            reveal_strlit("best-candidate");
            assert("best-candidate"@.len() != "!="@.len());
        } else if j == 1 {
            reveal_strlit("unique-atom");
            assert("unique-atom"@.len() != "!="@.len());
        } else if j == 2 {
            reveal_strlit("union-atom");
            assert("union-atom"@.len() != "!="@.len());
        } else if j == 3 {
            reveal_strlit("intersection-atom");
            assert("intersection-atom"@.len() != "!="@.len());
        } else if j == 4 {
            reveal_strlit("subtraction-atom");
            assert("subtraction-atom"@.len() != "!="@.len());
        } else if j == 5 {
            reveal_strlit("superpose");
            assert("superpose"@.len() != "!="@.len());
        } else if j == 6 {
            reveal_strlit("amb");
            assert("amb"@.len() != "!="@.len());
        } else if j == 7 {
            reveal_strlit("guard");
            assert("guard"@.len() != "!="@.len());
        } else if j == 8 {
            reveal_strlit("commit");
            assert("commit"@.len() != "!="@.len());
        } else if j == 9 {
            reveal_strlit("backtrack");
            assert("backtrack"@.len() != "!="@.len());
        } else if j == 10 {
            reveal_strlit("quote");
            assert("quote"@.len() != "!="@.len());
        }
    }
    lemma_last_named_none(signature_part8(), "!="@);
    assert forall|j: int| 0 <= j < signature_part9().len() implies #[trigger] signature_part9()[j].name != "!="@ by {
        if j == 0 {
            reveal_strlit("unquote");
            assert("unquote"@.len() != "!="@.len());
        } else if j == 1 {
            reveal_strlit("eval");
            assert("eval"@.len() != "!="@.len());
        } else if j == 2 {
            reveal_strlit("!");
            assert("!"@.len() != "!="@.len());
        } else if j == 3 {
            reveal_strlit("sealed");
            assert("sealed"@.len() != "!="@.len());
        } else if j == 4 {
            reveal_strlit("atom-subst");
            assert("atom-subst"@.len() != "!="@.len());
        } else if j == 5 {
            reveal_strlit("nop");
            assert("nop"@.len() != "!="@.len());
        } else if j == 6 {
            reveal_strlit("get-type");
            assert("get-type"@.len() != "!="@.len());
        } else if j == 7 {
            reveal_strlit("check-type");
            assert("check-type"@.len() != "!="@.len());
        } else if j == 8 {
            reveal_strlit("get-metatype");
            assert("get-metatype"@.len() != "!="@.len());
        } else if j == 9 {
            reveal_strlit("validate-atom");
            assert("validate-atom"@.len() != "!="@.len());
        } else if j == 10 {
            reveal_strlit("get-type-space");
            assert("get-type-space"@.len() != "!="@.len());
        }
    }
    lemma_last_named_none(signature_part9(), "!="@);
    assert forall|j: int| 0 <= j < signature_part10().len() implies #[trigger] signature_part10()[j].name != "!="@ by {
        if j == 0 {
            reveal_strlit("is-function");
            assert("is-function"@.len() != "!="@.len());
        } else if j == 1 {
            reveal_strlit("type-cast");
            assert("type-cast"@.len() != "!="@.len());
        } else if j == 2 {
            reveal_strlit("metta");
            assert("metta"@.len() != "!="@.len());
        } else if j == 3 {
            reveal_strlit("match-type-or");
            assert("match-type-or"@.len() != "!="@.len());
        } else if j == 4 {
            reveal_strlit("first-from-pair");
            assert("first-from-pair"@.len() != "!="@.len());
        } else if j == 5 {
            reveal_strlit(":<");
            assert(":<"@[0] != "!="@[0]);
        } else if j == 6 {
            reveal_strlit("Error");
            assert("Error"@.len() != "!="@.len());
        } else if j == 7 {
            reveal_strlit("error");
            assert("error"@.len() != "!="@.len());
        } else if j == 8 {
            reveal_strlit("is-error");
            assert("is-error"@.len() != "!="@.len());
        } else if j == 9 {
            reveal_strlit("catch");
            assert("catch"@.len() != "!="@.len());
        } else if j == 10 {
            reveal_strlit("new-state");
            assert("new-state"@.len() != "!="@.len());
        }
    }
    lemma_last_named_none(signature_part10(), "!="@);
    assert forall|j: int| 0 <= j < signature_part11().len() implies #[trigger] signature_part11()[j].name != "!="@ by {
        if j == 0 {
            reveal_strlit("get-state");
            assert("get-state"@.len() != "!="@.len());
        } else if j == 1 {
            reveal_strlit("change-state!");
            assert("change-state!"@.len() != "!="@.len());
        } else if j == 2 {
            reveal_strlit("println!");
            assert("println!"@.len() != "!="@.len());
        } else if j == 3 {
            reveal_strlit("trace!");
            assert("trace!"@.len() != "!="@.len());
        } else if j == 4 {
            reveal_strlit("repr");
            assert("repr"@.len() != "!="@.len());
        } else if j == 5 {
            reveal_strlit("format-args");
            assert("format-args"@.len() != "!="@.len());
        } else if j == 6 {
            reveal_strlit("=alpha");
            assert("=alpha"@.len() != "!="@.len());
        } else if j == 7 {
            reveal_strlit("include");
            assert("include"@.len() != "!="@.len());
        } else if j == 8 {
            reveal_strlit("import!");
            assert("import!"@.len() != "!="@.len());
        } else if j == 9 {
            reveal_strlit("bind!");
            assert("bind!"@.len() != "!="@.len());
        } else if j == 10 {
            reveal_strlit("mod-space!");
            assert("mod-space!"@.len() != "!="@.len());
        }
    }
    lemma_last_named_none(signature_part11(), "!="@);
    assert forall|j: int| 0 <= j < signature_part12().len() implies #[trigger] signature_part12()[j].name != "!="@ by {
        if j == 0 {
            reveal_strlit("print-mods!");
            assert("print-mods!"@.len() != "!="@.len());
        } else if j == 1 {
            reveal_strlit("pragma!");
            assert("pragma!"@.len() != "!="@.len());
        } else if j == 2 {
            reveal_strlit("new-memo");
            assert("new-memo"@.len() != "!="@.len());
        } else if j == 3 {
            reveal_strlit("memo");
            assert("memo"@.len() != "!="@.len());
        } else if j == 4 {
            reveal_strlit("memo-first");
            assert("memo-first"@.len() != "!="@.len());
        } else if j == 5 {
            reveal_strlit("clear-memo!");
            assert("clear-memo!"@.len() != "!="@.len());
        } else if j == 6 {
            reveal_strlit("memo-stats");
            assert("memo-stats"@.len() != "!="@.len());
        } else if j == 7 {
            reveal_strlit("assertEqual");
            assert("assertEqual"@.len() != "!="@.len());
        } else if j == 8 {
            reveal_strlit("assertEqualMsg");
            assert("assertEqualMsg"@.len() != "!="@.len());
        } else if j == 9 {
            reveal_strlit("assertAlphaEqual");
            assert("assertAlphaEqual"@.len() != "!="@.len());
        } else if j == 10 {
            reveal_strlit("assertAlphaEqualMsg");
            assert("assertAlphaEqualMsg"@.len() != "!="@.len());
        }
    }
    lemma_last_named_none(signature_part12(), "!="@);
    assert forall|j: int| 0 <= j < signature_part13().len() implies #[trigger] signature_part13()[j].name != "!="@ by {
        if j == 0 {
            reveal_strlit("assertEqualToResult");
            assert("assertEqualToResult"@.len() != "!="@.len());
        } else if j == 1 {
            reveal_strlit("assertEqualToResultMsg");
            assert("assertEqualToResultMsg"@.len() != "!="@.len());
        } else if j == 2 {
            reveal_strlit("assertAlphaEqualToResult");
            assert("assertAlphaEqualToResult"@.len() != "!="@.len());
        } else if j == 3 {
            reveal_strlit("assertAlphaEqualToResultMsg");
            assert("assertAlphaEqualToResultMsg"@.len() != "!="@.len());
        }
    }
    lemma_last_named_none(signature_part13(), "!="@);
    lemma_found_base(3, "!="@, 6);
    lemma_found_step(4, "!="@, signature_prefix(3).len() - signature_part(3).len() + 6);
    lemma_found_step(5, "!="@, signature_prefix(3).len() - signature_part(3).len() + 6);
    lemma_found_step(6, "!="@, signature_prefix(3).len() - signature_part(3).len() + 6);
    lemma_found_step(7, "!="@, signature_prefix(3).len() - signature_part(3).len() + 6);
    lemma_found_step(8, "!="@, signature_prefix(3).len() - signature_part(3).len() + 6);
    lemma_found_step(9, "!="@, signature_prefix(3).len() - signature_part(3).len() + 6);
    lemma_found_step(10, "!="@, signature_prefix(3).len() - signature_part(3).len() + 6);
    lemma_found_step(11, "!="@, signature_prefix(3).len() - signature_part(3).len() + 6);
    lemma_found_step(12, "!="@, signature_prefix(3).len() - signature_part(3).len() + 6);
    lemma_found_step(13, "!="@, signature_prefix(3).len() - signature_part(3).len() + 6);
    lemma_table_prefix();
}

/// The registry holds `and` once, as entry 7 of part 4.
proof fn lemma_registered_and()
    ensures
        signature_of("and"@) == Some(signature_part3()[7]),
{
    broadcast use vstd::string::group_string_axioms;

    reveal_strlit("and");
    assert forall|j: int| 8 <= j < signature_part3().len() implies #[trigger] signature_part3()[j].name != "and"@ by {
        if j == 8 {
            reveal_strlit("or");
            assert("or"@.len() != "and"@.len());
        } else if j == 9 {
            reveal_strlit("not");
            assert("not"@[0] != "and"@[0]);
        } else if j == 10 {
            reveal_strlit("xor");
            assert("xor"@[0] != "and"@[0]);
        }
    }
    lemma_last_named_at(signature_part3(), "and"@, 7);
    assert forall|j: int| 0 <= j < signature_part4().len() implies #[trigger] signature_part4()[j].name != "and"@ by {
        if j == 0 {
            reveal_strlit("if");
            assert("if"@.len() != "and"@.len());
        } else if j == 1 {
            reveal_strlit("case");
            assert("case"@.len() != "and"@.len());
        } else if j == 2 {
            reveal_strlit("switch");
            assert("switch"@.len() != "and"@.len());
        } else if j == 3 {
            reveal_strlit("if-equal");
            assert("if-equal"@.len() != "and"@.len());
        } else if j == 4 {
            reveal_strlit("if-reducible");
            assert("if-reducible"@.len() != "and"@.len());
        } else if j == 5 {
            reveal_strlit("let");
            assert("let"@[0] != "and"@[0]);
        } else if j == 6 {
            reveal_strlit("let*");
            assert("let*"@.len() != "and"@.len());
        } else if j == 7 {
            reveal_strlit("unify");
            assert("unify"@.len() != "and"@.len());
        } else if j == 8 {
            reveal_strlit("function");
            assert("function"@.len() != "and"@.len());
        } else if j == 9 {
            reveal_strlit("return");
            assert("return"@.len() != "and"@.len());
        } else if j == 10 {
            reveal_strlit("chain");
            assert("chain"@.len() != "and"@.len());
        }
    }
    lemma_last_named_none(signature_part4(), "and"@);
    assert forall|j: int| 0 <= j < signature_part5().len() implies #[trigger] signature_part5()[j].name != "and"@ by {
        if j == 0 {
            reveal_strlit("=");
            assert("="@.len() != "and"@.len());
        } else if j == 1 {
            reveal_strlit(":");
            assert(":"@.len() != "and"@.len());
        } else if j == 2 {
            reveal_strlit("match");
            assert("match"@.len() != "and"@.len());
        } else if j == 3 {
            reveal_strlit("match-or");
            assert("match-or"@.len() != "and"@.len());
        } else if j == 4 {
            reveal_strlit("new-space");
            assert("new-space"@.len() != "and"@.len());
        } else if j == 5 {
            reveal_strlit("add-atom");
            assert("add-atom"@.len() != "and"@.len());
        } else if j == 6 {
            reveal_strlit("remove-atom");
            assert("remove-atom"@.len() != "and"@.len());
        } else if j == 7 {
            reveal_strlit("get-atoms");
            assert("get-atoms"@.len() != "and"@.len());
        } else if j == 8 {
            reveal_strlit("collapse");
            assert("collapse"@.len() != "and"@.len());
        } else if j == 9 {
            reveal_strlit("collapse-bind");
            assert("collapse-bind"@.len() != "and"@.len());
        } else if j == 10 {
            reveal_strlit("car-atom");
            assert("car-atom"@.len() != "and"@.len());
        }
    }
    lemma_last_named_none(signature_part5(), "and"@);
    assert forall|j: int| 0 <= j < signature_part6().len() implies #[trigger] signature_part6()[j].name != "and"@ by {
        if j == 0 {
            reveal_strlit("cdr-atom");
            assert("cdr-atom"@.len() != "and"@.len());
        } else if j == 1 {
            reveal_strlit("cons-atom");
            assert("cons-atom"@.len() != "and"@.len());
        } else if j == 2 {
            reveal_strlit("decons-atom");
            assert("decons-atom"@.len() != "and"@.len());
        } else if j == 3 {
            reveal_strlit("size-atom");
            assert("size-atom"@.len() != "and"@.len());
        } else if j == 4 {
            reveal_strlit("max-atom");
            assert("max-atom"@.len() != "and"@.len());
        } else if j == 5 {
            reveal_strlit("min-atom");
            assert("min-atom"@.len() != "and"@.len());
        } else if j == 6 {
            reveal_strlit("index-atom");
            assert("index-atom"@.len() != "and"@.len());
        } else if j == 7 {
            reveal_strlit("empty");
            assert("empty"@.len() != "and"@.len());
        } else if j == 8 {
            reveal_strlit("tuple-concat");
            assert("tuple-concat"@.len() != "and"@.len());
        } else if j == 9 {
            reveal_strlit("tuple-count");
            assert("tuple-count"@.len() != "and"@.len());
        } else if j == 10 {
            reveal_strlit("without");
            assert("without"@.len() != "and"@.len());
        }
    }
    lemma_last_named_none(signature_part6(), "and"@);
    assert forall|j: int| 0 <= j < signature_part7().len() implies #[trigger] signature_part7()[j].name != "and"@ by {
        if j == 0 {
            reveal_strlit("element-of");
            assert("element-of"@.len() != "and"@.len());
        } else if j == 1 {
            reveal_strlit("range");
            assert("range"@.len() != "and"@.len());
        } else if j == 2 {
            reveal_strlit("reverse-atom");
            assert("reverse-atom"@.len() != "and"@.len());
        } else if j == 3 {
            reveal_strlit("flatten-atom");
            assert("flatten-atom"@.len() != "and"@.len());
        } else if j == 4 {
            reveal_strlit("zip-atom");
            assert("zip-atom"@.len() != "and"@.len());
        } else if j == 5 {
            reveal_strlit("take-atom");
            assert("take-atom"@.len() != "and"@.len());
        } else if j == 6 {
            reveal_strlit("drop-atom");
            assert("drop-atom"@.len() != "and"@.len());
        } else if j == 7 {
            reveal_strlit("map-atom");
            assert("map-atom"@.len() != "and"@.len());
        } else if j == 8 {
            reveal_strlit("filter-atom");
            assert("filter-atom"@.len() != "and"@.len());
        } else if j == 9 {
            reveal_strlit("foldl-atom");
            assert("foldl-atom"@.len() != "and"@.len());
        } else if j == 10 {
            reveal_strlit("sort-tuple");
            assert("sort-tuple"@.len() != "and"@.len());
        }
    }
    lemma_last_named_none(signature_part7(), "and"@);
    assert forall|j: int| 0 <= j < signature_part8().len() implies #[trigger] signature_part8()[j].name != "and"@ by {
        if j == 0 {
            reveal_strlit("best-candidate");
            assert("best-candidate"@.len() != "and"@.len());
        } else if j == 1 {
            reveal_strlit("unique-atom");
            assert("unique-atom"@.len() != "and"@.len());
        } else if j == 2 {
            reveal_strlit("union-atom");
            assert("union-atom"@.len() != "and"@.len());
        } else if j == 3 {
            reveal_strlit("intersection-atom");
            assert("intersection-atom"@.len() != "and"@.len());
        } else if j == 4 {
            reveal_strlit("subtraction-atom");
            assert("subtraction-atom"@.len() != "and"@.len());
        } else if j == 5 {
            reveal_strlit("superpose");
            assert("superpose"@.len() != "and"@.len());
        } else if j == 6 {
            reveal_strlit("amb");
            assert("amb"@[1] != "and"@[1]);
        } else if j == 7 {
            reveal_strlit("guard");
            assert("guard"@.len() != "and"@.len());
        } else if j == 8 {
            reveal_strlit("commit");
            assert("commit"@.len() != "and"@.len());
        } else if j == 9 {
            reveal_strlit("backtrack");
            assert("backtrack"@.len() != "and"@.len());
        } else if j == 10 {
            reveal_strlit("quote");
            assert("quote"@.len() != "and"@.len());
        }
    }
    lemma_last_named_none(signature_part8(), "and"@);
    assert forall|j: int| 0 <= j < signature_part9().len() implies #[trigger] signature_part9()[j].name != "and"@ by {
        if j == 0 {
            reveal_strlit("unquote");
            assert("unquote"@.len() != "and"@.len());
        } else if j == 1 {
            reveal_strlit("eval");
            assert("eval"@.len() != "and"@.len());
        } else if j == 2 {
            reveal_strlit("!");
            assert("!"@.len() != "and"@.len());
        } else if j == 3 {
            reveal_strlit("sealed");
            assert("sealed"@.len() != "and"@.len());
        } else if j == 4 {
            reveal_strlit("atom-subst");
            assert("atom-subst"@.len() != "and"@.len());
        } else if j == 5 {
            reveal_strlit("nop");
            assert("nop"@[0] != "and"@[0]);
        } else if j == 6 {
            reveal_strlit("get-type");
            assert("get-type"@.len() != "and"@.len());
        } else if j == 7 {
            reveal_strlit("check-type");
            assert("check-type"@.len() != "and"@.len());
        } else if j == 8 {
            reveal_strlit("get-metatype");
            assert("get-metatype"@.len() != "and"@.len());
        } else if j == 9 {
            reveal_strlit("validate-atom");
            assert("validate-atom"@.len() != "and"@.len());
        } else if j == 10 {
            reveal_strlit("get-type-space");
            assert("get-type-space"@.len() != "and"@.len());
        }
    }
    lemma_last_named_none(signature_part9(), "and"@);
    assert forall|j: int| 0 <= j < signature_part10().len() implies #[trigger] signature_part10()[j].name != "and"@ by {
        if j == 0 {
            reveal_strlit("is-function");
            assert("is-function"@.len() != "and"@.len());
        } else if j == 1 {
            reveal_strlit("type-cast");
            assert("type-cast"@.len() != "and"@.len());
        } else if j == 2 {
            reveal_strlit("metta");
            assert("metta"@.len() != "and"@.len());
        } else if j == 3 {
            reveal_strlit("match-type-or");
            assert("match-type-or"@.len() != "and"@.len());
        } else if j == 4 {
            reveal_strlit("first-from-pair");
            assert("first-from-pair"@.len() != "and"@.len());
        } else if j == 5 {
            reveal_strlit(":<");
            assert(":<"@.len() != "and"@.len());
        } else if j == 6 {
            reveal_strlit("Error");
            assert("Error"@.len() != "and"@.len());
        } else if j == 7 {
            reveal_strlit("error");
            assert("error"@.len() != "and"@.len());
        } else if j == 8 {
            reveal_strlit("is-error");
            assert("is-error"@.len() != "and"@.len());
        } else if j == 9 {
            reveal_strlit("catch");
            assert("catch"@.len() != "and"@.len());
        } else if j == 10 {
            reveal_strlit("new-state");
            assert("new-state"@.len() != "and"@.len());
        }
    }
    lemma_last_named_none(signature_part10(), "and"@);
    assert forall|j: int| 0 <= j < signature_part11().len() implies #[trigger] signature_part11()[j].name != "and"@ by {
        if j == 0 {
            reveal_strlit("get-state");
            assert("get-state"@.len() != "and"@.len());
        } else if j == 1 {
            reveal_strlit("change-state!");
            assert("change-state!"@.len() != "and"@.len());
        } else if j == 2 {
            reveal_strlit("println!");
            assert("println!"@.len() != "and"@.len());
        } else if j == 3 {
            reveal_strlit("trace!");
            assert("trace!"@.len() != "and"@.len());
        } else if j == 4 {
            reveal_strlit("repr");
            assert("repr"@.len() != "and"@.len());
        } else if j == 5 {
            reveal_strlit("format-args");
            assert("format-args"@.len() != "and"@.len());
        } else if j == 6 {
            reveal_strlit("=alpha");
            assert("=alpha"@.len() != "and"@.len());
        } else if j == 7 {
            reveal_strlit("include");
            assert("include"@.len() != "and"@.len());
        } else if j == 8 {
            reveal_strlit("import!");
            assert("import!"@.len() != "and"@.len());
        } else if j == 9 {
            reveal_strlit("bind!");
            assert("bind!"@.len() != "and"@.len());
        } else if j == 10 {
            reveal_strlit("mod-space!");
            assert("mod-space!"@.len() != "and"@.len());
        }
    }
    lemma_last_named_none(signature_part11(), "and"@);
    assert forall|j: int| 0 <= j < signature_part12().len() implies #[trigger] signature_part12()[j].name != "and"@ by {
        if j == 0 {
            reveal_strlit("print-mods!");
            assert("print-mods!"@.len() != "and"@.len());
        } else if j == 1 {
            reveal_strlit("pragma!");
            assert("pragma!"@.len() != "and"@.len());
        } else if j == 2 {
            reveal_strlit("new-memo");
            assert("new-memo"@.len() != "and"@.len());
        } else if j == 3 {
            reveal_strlit("memo");
            assert("memo"@.len() != "and"@.len());
        } else if j == 4 {
            reveal_strlit("memo-first");
            assert("memo-first"@.len() != "and"@.len());
        } else if j == 5 {
            reveal_strlit("clear-memo!");
            assert("clear-memo!"@.len() != "and"@.len());
        } else if j == 6 {
            reveal_strlit("memo-stats");
            assert("memo-stats"@.len() != "and"@.len());
        } else if j == 7 {
            reveal_strlit("assertEqual");
            assert("assertEqual"@.len() != "and"@.len());
        } else if j == 8 {
            reveal_strlit("assertEqualMsg");
            assert("assertEqualMsg"@.len() != "and"@.len());
        } else if j == 9 {
            reveal_strlit("assertAlphaEqual");
            assert("assertAlphaEqual"@.len() != "and"@.len());
        } else if j == 10 {
            reveal_strlit("assertAlphaEqualMsg");
            assert("assertAlphaEqualMsg"@.len() != "and"@.len());
        }
    }
    lemma_last_named_none(signature_part12(), "and"@);
    assert forall|j: int| 0 <= j < signature_part13().len() implies #[trigger] signature_part13()[j].name != "and"@ by {
        if j == 0 {
            reveal_strlit("assertEqualToResult");
            assert("assertEqualToResult"@.len() != "and"@.len());
        } else if j == 1 {
            reveal_strlit("assertEqualToResultMsg");
            assert("assertEqualToResultMsg"@.len() != "and"@.len());
        } else if j == 2 {
            reveal_strlit("assertAlphaEqualToResult");
            assert("assertAlphaEqualToResult"@.len() != "and"@.len());
        } else if j == 3 {
            reveal_strlit("assertAlphaEqualToResultMsg");
            assert("assertAlphaEqualToResultMsg"@.len() != "and"@.len());
        }
    }
    lemma_last_named_none(signature_part13(), "and"@);
    lemma_found_base(3, "and"@, 7);
    lemma_found_step(4, "and"@, signature_prefix(3).len() - signature_part(3).len() + 7);
    lemma_found_step(5, "and"@, signature_prefix(3).len() - signature_part(3).len() + 7);
    lemma_found_step(6, "and"@, signature_prefix(3).len() - signature_part(3).len() + 7);
    lemma_found_step(7, "and"@, signature_prefix(3).len() - signature_part(3).len() + 7);
    lemma_found_step(8, "and"@, signature_prefix(3).len() - signature_part(3).len() + 7);
    lemma_found_step(9, "and"@, signature_prefix(3).len() - signature_part(3).len() + 7);
    lemma_found_step(10, "and"@, signature_prefix(3).len() - signature_part(3).len() + 7);
    lemma_found_step(11, "and"@, signature_prefix(3).len() - signature_part(3).len() + 7);
    lemma_found_step(12, "and"@, signature_prefix(3).len() - signature_part(3).len() + 7);
    lemma_found_step(13, "and"@, signature_prefix(3).len() - signature_part(3).len() + 7);
    lemma_table_prefix();
}

/// The registry holds `or` once, as entry 8 of part 4.
proof fn lemma_registered_or()
    ensures
        signature_of("or"@) == Some(signature_part3()[8]),
{
    broadcast use vstd::string::group_string_axioms;

    reveal_strlit("or");
    assert forall|j: int| 9 <= j < signature_part3().len() implies #[trigger] signature_part3()[j].name != "or"@ by {
        if j == 9 {
            reveal_strlit("not");
            assert("not"@.len() != "or"@.len());
        } else if j == 10 {
            reveal_strlit("xor");
            assert("xor"@.len() != "or"@.len());
        }
    }
    lemma_last_named_at(signature_part3(), "or"@, 8);
    assert forall|j: int| 0 <= j < signature_part4().len() implies #[trigger] signature_part4()[j].name != "or"@ by {
        if j == 0 {
            reveal_strlit("if");
            assert("if"@[0] != "or"@[0]);
        } else if j == 1 {
            reveal_strlit("case");
            assert("case"@.len() != "or"@.len());
        } else if j == 2 {
            reveal_strlit("switch");
            assert("switch"@.len() != "or"@.len());
        } else if j == 3 {
            reveal_strlit("if-equal");
            assert("if-equal"@.len() != "or"@.len());
        } else if j == 4 {
            reveal_strlit("if-reducible");
            assert("if-reducible"@.len() != "or"@.len());
        } else if j == 5 {
            reveal_strlit("let");
            assert("let"@.len() != "or"@.len());
        } else if j == 6 {
            reveal_strlit("let*");
            assert("let*"@.len() != "or"@.len());
        } else if j == 7 {
            reveal_strlit("unify");
            assert("unify"@.len() != "or"@.len());
        } else if j == 8 {
            reveal_strlit("function");
            assert("function"@.len() != "or"@.len());
        } else if j == 9 {
            reveal_strlit("return");
            assert("return"@.len() != "or"@.len());
        } else if j == 10 {
            reveal_strlit("chain");
            assert("chain"@.len() != "or"@.len());
        }
    }
    lemma_last_named_none(signature_part4(), "or"@);
    assert forall|j: int| 0 <= j < signature_part5().len() implies #[trigger] signature_part5()[j].name != "or"@ by {
        if j == 0 {
            reveal_strlit("=");
            assert("="@.len() != "or"@.len());
        } else if j == 1 {
            reveal_strlit(":");
            assert(":"@.len() != "or"@.len());
        } else if j == 2 {
            reveal_strlit("match");
            assert("match"@.len() != "or"@.len());
        } else if j == 3 {
            reveal_strlit("match-or");
            assert("match-or"@.len() != "or"@.len());
        } else if j == 4 {
            reveal_strlit("new-space");
            assert("new-space"@.len() != "or"@.len());
        } else if j == 5 {
            reveal_strlit("add-atom");
            assert("add-atom"@.len() != "or"@.len());
        } else if j == 6 {
            reveal_strlit("remove-atom");
            assert("remove-atom"@.len() != "or"@.len());
        } else if j == 7 {
            reveal_strlit("get-atoms");
            assert("get-atoms"@.len() != "or"@.len());
        } else if j == 8 {
            reveal_strlit("collapse");
            assert("collapse"@.len() != "or"@.len());
        } else if j == 9 {
            reveal_strlit("collapse-bind");
            assert("collapse-bind"@.len() != "or"@.len());
        } else if j == 10 {
            reveal_strlit("car-atom");
            assert("car-atom"@.len() != "or"@.len());
        }
    }
    lemma_last_named_none(signature_part5(), "or"@);
    assert forall|j: int| 0 <= j < signature_part6().len() implies #[trigger] signature_part6()[j].name != "or"@ by {
        if j == 0 {
            reveal_strlit("cdr-atom");
            assert("cdr-atom"@.len() != "or"@.len());
        } else if j == 1 {
            reveal_strlit("cons-atom");
            assert("cons-atom"@.len() != "or"@.len());
        } else if j == 2 {
            reveal_strlit("decons-atom");
            assert("decons-atom"@.len() != "or"@.len());
        } else if j == 3 {
            reveal_strlit("size-atom");
            assert("size-atom"@.len() != "or"@.len());
        } else if j == 4 {
            reveal_strlit("max-atom");
            assert("max-atom"@.len() != "or"@.len());
        } else if j == 5 {
            reveal_strlit("min-atom");
            assert("min-atom"@.len() != "or"@.len());
        } else if j == 6 {
            reveal_strlit("index-atom");
            assert("index-atom"@.len() != "or"@.len());
        } else if j == 7 {
            reveal_strlit("empty");
            assert("empty"@.len() != "or"@.len());
        } else if j == 8 {
            reveal_strlit("tuple-concat");
            assert("tuple-concat"@.len() != "or"@.len());
        } else if j == 9 {
            reveal_strlit("tuple-count");
            assert("tuple-count"@.len() != "or"@.len());
        } else if j == 10 {
            reveal_strlit("without");
            assert("without"@.len() != "or"@.len());
        }
    }
    lemma_last_named_none(signature_part6(), "or"@);
    assert forall|j: int| 0 <= j < signature_part7().len() implies #[trigger] signature_part7()[j].name != "or"@ by {
        if j == 0 {
            reveal_strlit("element-of");
            assert("element-of"@.len() != "or"@.len());
        } else if j == 1 {
            reveal_strlit("range");
            assert("range"@.len() != "or"@.len());
        } else if j == 2 {
            reveal_strlit("reverse-atom");
            assert("reverse-atom"@.len() != "or"@.len());
        } else if j == 3 {
            reveal_strlit("flatten-atom");
            assert("flatten-atom"@.len() != "or"@.len());
        } else if j == 4 {
            reveal_strlit("zip-atom");
            assert("zip-atom"@.len() != "or"@.len());
        } else if j == 5 {
            reveal_strlit("take-atom");
            assert("take-atom"@.len() != "or"@.len());
        } else if j == 6 {
            reveal_strlit("drop-atom");
            assert("drop-atom"@.len() != "or"@.len());
        } else if j == 7 {
            reveal_strlit("map-atom");
            assert("map-atom"@.len() != "or"@.len());
        } else if j == 8 {
            reveal_strlit("filter-atom");
            assert("filter-atom"@.len() != "or"@.len());
        } else if j == 9 {
            reveal_strlit("foldl-atom");
            assert("foldl-atom"@.len() != "or"@.len());
        } else if j == 10 {
            reveal_strlit("sort-tuple");
            assert("sort-tuple"@.len() != "or"@.len());
        }
    }
    lemma_last_named_none(signature_part7(), "or"@);
    assert forall|j: int| 0 <= j < signature_part8().len() implies #[trigger] signature_part8()[j].name != "or"@ by {
        if j == 0 {
            reveal_strlit("best-candidate");
            assert("best-candidate"@.len() != "or"@.len());
        } else if j == 1 {
            reveal_strlit("unique-atom");
            assert("unique-atom"@.len() != "or"@.len());
        } else if j == 2 {
            reveal_strlit("union-atom");
            assert("union-atom"@.len() != "or"@.len());
        } else if j == 3 {
            reveal_strlit("intersection-atom");
            assert("intersection-atom"@.len() != "or"@.len());
        } else if j == 4 {
            reveal_strlit("subtraction-atom");
            assert("subtraction-atom"@.len() != "or"@.len());
        } else if j == 5 {
            reveal_strlit("superpose");
            assert("superpose"@.len() != "or"@.len());
        } else if j == 6 {
            reveal_strlit("amb");
            assert("amb"@.len() != "or"@.len());
        } else if j == 7 {
            reveal_strlit("guard");
            assert("guard"@.len() != "or"@.len());
        } else if j == 8 {
            reveal_strlit("commit");
            assert("commit"@.len() != "or"@.len());
        } else if j == 9 {
            reveal_strlit("backtrack");
            assert("backtrack"@.len() != "or"@.len());
        } else if j == 10 {
            reveal_strlit("quote");
            assert("quote"@.len() != "or"@.len());
        }
    }
    lemma_last_named_none(signature_part8(), "or"@);
    assert forall|j: int| 0 <= j < signature_part9().len() implies #[trigger] signature_part9()[j].name != "or"@ by {
        if j == 0 {
            reveal_strlit("unquote");
            assert("unquote"@.len() != "or"@.len());
        } else if j == 1 {
            reveal_strlit("eval");
            assert("eval"@.len() != "or"@.len());
        } else if j == 2 {
            reveal_strlit("!");
            assert("!"@.len() != "or"@.len());
        } else if j == 3 {
            reveal_strlit("sealed");
            assert("sealed"@.len() != "or"@.len());
        } else if j == 4 {
            reveal_strlit("atom-subst");
            assert("atom-subst"@.len() != "or"@.len());
        } else if j == 5 {
            reveal_strlit("nop");
            assert("nop"@.len() != "or"@.len());
        } else if j == 6 {
            reveal_strlit("get-type");
            assert("get-type"@.len() != "or"@.len());
        } else if j == 7 {
            reveal_strlit("check-type");
            assert("check-type"@.len() != "or"@.len());
        } else if j == 8 {
            reveal_strlit("get-metatype");
            assert("get-metatype"@.len() != "or"@.len());
        } else if j == 9 {
            reveal_strlit("validate-atom");
            assert("validate-atom"@.len() != "or"@.len());
        } else if j == 10 {
            reveal_strlit("get-type-space");
            assert("get-type-space"@.len() != "or"@.len());
        }
    }
    lemma_last_named_none(signature_part9(), "or"@);
    assert forall|j: int| 0 <= j < signature_part10().len() implies #[trigger] signature_part10()[j].name != "or"@ by {
        if j == 0 {
            reveal_strlit("is-function");
            assert("is-function"@.len() != "or"@.len());
        } else if j == 1 {
            reveal_strlit("type-cast");
            assert("type-cast"@.len() != "or"@.len());
        } else if j == 2 {
            reveal_strlit("metta");
            assert("metta"@.len() != "or"@.len());
        } else if j == 3 {
            reveal_strlit("match-type-or");
            assert("match-type-or"@.len() != "or"@.len());
        } else if j == 4 {
            reveal_strlit("first-from-pair");
            assert("first-from-pair"@.len() != "or"@.len());
        } else if j == 5 {
            reveal_strlit(":<");
            assert(":<"@[0] != "or"@[0]);
        } else if j == 6 {
            reveal_strlit("Error");
            assert("Error"@.len() != "or"@.len());
        } else if j == 7 {
            reveal_strlit("error");
            assert("error"@.len() != "or"@.len());
        } else if j == 8 {
            reveal_strlit("is-error");
            assert("is-error"@.len() != "or"@.len());
        } else if j == 9 {
            reveal_strlit("catch");
            assert("catch"@.len() != "or"@.len());
        } else if j == 10 {
            reveal_strlit("new-state");
            assert("new-state"@.len() != "or"@.len());
        }
    }
    lemma_last_named_none(signature_part10(), "or"@);
    assert forall|j: int| 0 <= j < signature_part11().len() implies #[trigger] signature_part11()[j].name != "or"@ by {
        if j == 0 {
            reveal_strlit("get-state");
            assert("get-state"@.len() != "or"@.len());
        } else if j == 1 {
            reveal_strlit("change-state!");
            assert("change-state!"@.len() != "or"@.len());
        } else if j == 2 {
            reveal_strlit("println!");
            assert("println!"@.len() != "or"@.len());
        } else if j == 3 {
            reveal_strlit("trace!");
            assert("trace!"@.len() != "or"@.len());
        } else if j == 4 {
            reveal_strlit("repr");
            assert("repr"@.len() != "or"@.len());
        } else if j == 5 {
            reveal_strlit("format-args");
            assert("format-args"@.len() != "or"@.len());
        } else if j == 6 {
            reveal_strlit("=alpha");
            assert("=alpha"@.len() != "or"@.len());
        } else if j == 7 {
            reveal_strlit("include");
            assert("include"@.len() != "or"@.len());
        } else if j == 8 {
            reveal_strlit("import!");
            assert("import!"@.len() != "or"@.len());
        } else if j == 9 {
            reveal_strlit("bind!");
            assert("bind!"@.len() != "or"@.len());
        } else if j == 10 {
            reveal_strlit("mod-space!");
            assert("mod-space!"@.len() != "or"@.len());
        }
    }
    lemma_last_named_none(signature_part11(), "or"@);
    assert forall|j: int| 0 <= j < signature_part12().len() implies #[trigger] signature_part12()[j].name != "or"@ by {
        if j == 0 {
            reveal_strlit("print-mods!");
            assert("print-mods!"@.len() != "or"@.len());
        } else if j == 1 {
            reveal_strlit("pragma!");
            assert("pragma!"@.len() != "or"@.len());
        } else if j == 2 {
            reveal_strlit("new-memo");
            assert("new-memo"@.len() != "or"@.len());
        } else if j == 3 {
            reveal_strlit("memo");
            assert("memo"@.len() != "or"@.len());
        } else if j == 4 {
            reveal_strlit("memo-first");
            assert("memo-first"@.len() != "or"@.len());
        } else if j == 5 {
            reveal_strlit("clear-memo!");
            assert("clear-memo!"@.len() != "or"@.len());
        } else if j == 6 {
            reveal_strlit("memo-stats");
            assert("memo-stats"@.len() != "or"@.len());
        } else if j == 7 {
            reveal_strlit("assertEqual");
            assert("assertEqual"@.len() != "or"@.len());
        } else if j == 8 {
            reveal_strlit("assertEqualMsg");
            assert("assertEqualMsg"@.len() != "or"@.len());
        } else if j == 9 {
            reveal_strlit("assertAlphaEqual");
            assert("assertAlphaEqual"@.len() != "or"@.len());
        } else if j == 10 {
            reveal_strlit("assertAlphaEqualMsg");
            assert("assertAlphaEqualMsg"@.len() != "or"@.len());
        }
    }
    lemma_last_named_none(signature_part12(), "or"@);
    assert forall|j: int| 0 <= j < signature_part13().len() implies #[trigger] signature_part13()[j].name != "or"@ by {
        if j == 0 {
            reveal_strlit("assertEqualToResult");
            assert("assertEqualToResult"@.len() != "or"@.len());
        } else if j == 1 {
            reveal_strlit("assertEqualToResultMsg");
            assert("assertEqualToResultMsg"@.len() != "or"@.len());
        } else if j == 2 {
            reveal_strlit("assertAlphaEqualToResult");
            assert("assertAlphaEqualToResult"@.len() != "or"@.len());
        } else if j == 3 {
            reveal_strlit("assertAlphaEqualToResultMsg");
            assert("assertAlphaEqualToResultMsg"@.len() != "or"@.len());
        }
    }
    lemma_last_named_none(signature_part13(), "or"@);
    lemma_found_base(3, "or"@, 8);
    lemma_found_step(4, "or"@, signature_prefix(3).len() - signature_part(3).len() + 8);
    lemma_found_step(5, "or"@, signature_prefix(3).len() - signature_part(3).len() + 8);
    lemma_found_step(6, "or"@, signature_prefix(3).len() - signature_part(3).len() + 8);
    lemma_found_step(7, "or"@, signature_prefix(3).len() - signature_part(3).len() + 8);
    lemma_found_step(8, "or"@, signature_prefix(3).len() - signature_part(3).len() + 8);
    lemma_found_step(9, "or"@, signature_prefix(3).len() - signature_part(3).len() + 8);
    lemma_found_step(10, "or"@, signature_prefix(3).len() - signature_part(3).len() + 8);
    lemma_found_step(11, "or"@, signature_prefix(3).len() - signature_part(3).len() + 8);
    lemma_found_step(12, "or"@, signature_prefix(3).len() - signature_part(3).len() + 8);
    lemma_found_step(13, "or"@, signature_prefix(3).len() - signature_part(3).len() + 8);
    lemma_table_prefix();
}

/// The registry holds `xor` once, as entry 10 of part 4.
proof fn lemma_registered_xor()
    ensures
        signature_of("xor"@) == Some(signature_part3()[10]),
{
    broadcast use vstd::string::group_string_axioms;

    reveal_strlit("xor");
    lemma_last_named_at(signature_part3(), "xor"@, 10);
    assert forall|j: int| 0 <= j < signature_part4().len() implies #[trigger] signature_part4()[j].name != "xor"@ by {
        if j == 0 {
            reveal_strlit("if");
            assert("if"@.len() != "xor"@.len());
        } else if j == 1 {
            reveal_strlit("case");
            assert("case"@.len() != "xor"@.len());
        } else if j == 2 {
            reveal_strlit("switch");
            assert("switch"@.len() != "xor"@.len());
        } else if j == 3 {
            reveal_strlit("if-equal");
            assert("if-equal"@.len() != "xor"@.len());
        } else if j == 4 {
            reveal_strlit("if-reducible");
            assert("if-reducible"@.len() != "xor"@.len());
        } else if j == 5 {
            reveal_strlit("let");
            assert("let"@[0] != "xor"@[0]);
        } else if j == 6 {
            reveal_strlit("let*");
            assert("let*"@.len() != "xor"@.len());
        } else if j == 7 {
            reveal_strlit("unify");
            assert("unify"@.len() != "xor"@.len());
        } else if j == 8 {
            reveal_strlit("function");
            assert("function"@.len() != "xor"@.len());
        } else if j == 9 {
            reveal_strlit("return");
            assert("return"@.len() != "xor"@.len());
        } else if j == 10 {
            reveal_strlit("chain");
            assert("chain"@.len() != "xor"@.len());
        }
    }
    lemma_last_named_none(signature_part4(), "xor"@);
    assert forall|j: int| 0 <= j < signature_part5().len() implies #[trigger] signature_part5()[j].name != "xor"@ by {
        if j == 0 {
            reveal_strlit("=");
            assert("="@.len() != "xor"@.len());
        } else if j == 1 {
            reveal_strlit(":");
            assert(":"@.len() != "xor"@.len());
        } else if j == 2 {
            reveal_strlit("match");
            assert("match"@.len() != "xor"@.len());
        } else if j == 3 {
            reveal_strlit("match-or");
            assert("match-or"@.len() != "xor"@.len());
        } else if j == 4 {
            reveal_strlit("new-space");
            assert("new-space"@.len() != "xor"@.len());
        } else if j == 5 {
            reveal_strlit("add-atom");
            assert("add-atom"@.len() != "xor"@.len());
        } else if j == 6 {
            reveal_strlit("remove-atom");
            assert("remove-atom"@.len() != "xor"@.len());
        } else if j == 7 {
            reveal_strlit("get-atoms");
            assert("get-atoms"@.len() != "xor"@.len());
        } else if j == 8 {
            reveal_strlit("collapse");
            assert("collapse"@.len() != "xor"@.len());
        } else if j == 9 {
            reveal_strlit("collapse-bind");
            assert("collapse-bind"@.len() != "xor"@.len());
        } else if j == 10 {
            reveal_strlit("car-atom");
            assert("car-atom"@.len() != "xor"@.len());
        }
    }
    lemma_last_named_none(signature_part5(), "xor"@);
    assert forall|j: int| 0 <= j < signature_part6().len() implies #[trigger] signature_part6()[j].name != "xor"@ by {
        if j == 0 {
            reveal_strlit("cdr-atom");
            assert("cdr-atom"@.len() != "xor"@.len());
        } else if j == 1 {
            reveal_strlit("cons-atom");
            assert("cons-atom"@.len() != "xor"@.len());
        } else if j == 2 {
            reveal_strlit("decons-atom");
            assert("decons-atom"@.len() != "xor"@.len());
        } else if j == 3 {
            reveal_strlit("size-atom");
            assert("size-atom"@.len() != "xor"@.len());
        } else if j == 4 {
            reveal_strlit("max-atom");
            assert("max-atom"@.len() != "xor"@.len());
        } else if j == 5 {
            reveal_strlit("min-atom");
            assert("min-atom"@.len() != "xor"@.len());
        } else if j == 6 {
            reveal_strlit("index-atom");
            assert("index-atom"@.len() != "xor"@.len());
        } else if j == 7 {
            reveal_strlit("empty");
            assert("empty"@.len() != "xor"@.len());
        } else if j == 8 {
            reveal_strlit("tuple-concat");
            assert("tuple-concat"@.len() != "xor"@.len());
        } else if j == 9 {
            reveal_strlit("tuple-count");
            assert("tuple-count"@.len() != "xor"@.len());
        } else if j == 10 {
            reveal_strlit("without");
            assert("without"@.len() != "xor"@.len());
        }
    }
    lemma_last_named_none(signature_part6(), "xor"@);
    assert forall|j: int| 0 <= j < signature_part7().len() implies #[trigger] signature_part7()[j].name != "xor"@ by {
        if j == 0 {
            reveal_strlit("element-of");
            assert("element-of"@.len() != "xor"@.len());
        } else if j == 1 {
            reveal_strlit("range");
            assert("range"@.len() != "xor"@.len());
        } else if j == 2 {
            reveal_strlit("reverse-atom");
            assert("reverse-atom"@.len() != "xor"@.len());
        } else if j == 3 {
            reveal_strlit("flatten-atom");
            assert("flatten-atom"@.len() != "xor"@.len());
        } else if j == 4 {
            reveal_strlit("zip-atom");
            assert("zip-atom"@.len() != "xor"@.len());
        } else if j == 5 {
            reveal_strlit("take-atom");
            assert("take-atom"@.len() != "xor"@.len());
        } else if j == 6 {
            reveal_strlit("drop-atom");
            assert("drop-atom"@.len() != "xor"@.len());
        } else if j == 7 {
            reveal_strlit("map-atom");
            assert("map-atom"@.len() != "xor"@.len());
        } else if j == 8 {
            reveal_strlit("filter-atom");
            assert("filter-atom"@.len() != "xor"@.len());
        } else if j == 9 {
            reveal_strlit("foldl-atom");
            assert("foldl-atom"@.len() != "xor"@.len());
        } else if j == 10 {
            reveal_strlit("sort-tuple");
            assert("sort-tuple"@.len() != "xor"@.len());
        }
    }
    lemma_last_named_none(signature_part7(), "xor"@);
    assert forall|j: int| 0 <= j < signature_part8().len() implies #[trigger] signature_part8()[j].name != "xor"@ by {
        if j == 0 {
            reveal_strlit("best-candidate");
            assert("best-candidate"@.len() != "xor"@.len());
        } else if j == 1 {
            reveal_strlit("unique-atom");
            assert("unique-atom"@.len() != "xor"@.len());
        } else if j == 2 {
            reveal_strlit("union-atom");
            assert("union-atom"@.len() != "xor"@.len());
        } else if j == 3 {
            reveal_strlit("intersection-atom");
            assert("intersection-atom"@.len() != "xor"@.len());
        } else if j == 4 {
            reveal_strlit("subtraction-atom");
            assert("subtraction-atom"@.len() != "xor"@.len());
        } else if j == 5 {
            reveal_strlit("superpose");
            assert("superpose"@.len() != "xor"@.len());
        } else if j == 6 {
            reveal_strlit("amb");
            assert("amb"@[0] != "xor"@[0]);
        } else if j == 7 {
            reveal_strlit("guard");
            assert("guard"@.len() != "xor"@.len());
        } else if j == 8 {
            reveal_strlit("commit");
            assert("commit"@.len() != "xor"@.len());
        } else if j == 9 {
            reveal_strlit("backtrack");
            assert("backtrack"@.len() != "xor"@.len());
        } else if j == 10 {
            reveal_strlit("quote");
            assert("quote"@.len() != "xor"@.len());
        }
    }
    lemma_last_named_none(signature_part8(), "xor"@);
    assert forall|j: int| 0 <= j < signature_part9().len() implies #[trigger] signature_part9()[j].name != "xor"@ by {
        if j == 0 {
            reveal_strlit("unquote");
            assert("unquote"@.len() != "xor"@.len());
        } else if j == 1 {
            reveal_strlit("eval");
            assert("eval"@.len() != "xor"@.len());
        } else if j == 2 {
            reveal_strlit("!");
            assert("!"@.len() != "xor"@.len());
        } else if j == 3 {
            reveal_strlit("sealed");
            assert("sealed"@.len() != "xor"@.len());
        } else if j == 4 {
            reveal_strlit("atom-subst");
            assert("atom-subst"@.len() != "xor"@.len());
        } else if j == 5 {
            reveal_strlit("nop");
            assert("nop"@[0] != "xor"@[0]);
        } else if j == 6 {
            reveal_strlit("get-type");
            assert("get-type"@.len() != "xor"@.len());
        } else if j == 7 {
            reveal_strlit("check-type");
            assert("check-type"@.len() != "xor"@.len());
        } else if j == 8 {
            reveal_strlit("get-metatype");
            assert("get-metatype"@.len() != "xor"@.len());
        } else if j == 9 {
            reveal_strlit("validate-atom");
            assert("validate-atom"@.len() != "xor"@.len());
        } else if j == 10 {
            reveal_strlit("get-type-space");
            assert("get-type-space"@.len() != "xor"@.len());
        }
    }
    lemma_last_named_none(signature_part9(), "xor"@);
    assert forall|j: int| 0 <= j < signature_part10().len() implies #[trigger] signature_part10()[j].name != "xor"@ by {
        if j == 0 {
            reveal_strlit("is-function");
            assert("is-function"@.len() != "xor"@.len());
        } else if j == 1 {
            reveal_strlit("type-cast");
            assert("type-cast"@.len() != "xor"@.len());
        } else if j == 2 {
            reveal_strlit("metta");
            assert("metta"@.len() != "xor"@.len());
        } else if j == 3 {
            reveal_strlit("match-type-or");
            assert("match-type-or"@.len() != "xor"@.len());
        } else if j == 4 {
            reveal_strlit("first-from-pair");
            assert("first-from-pair"@.len() != "xor"@.len());
        } else if j == 5 {
            reveal_strlit(":<");
            assert(":<"@.len() != "xor"@.len());
        } else if j == 6 {
            reveal_strlit("Error");
            assert("Error"@.len() != "xor"@.len());
        } else if j == 7 {
            reveal_strlit("error");
            assert("error"@.len() != "xor"@.len());
        } else if j == 8 {
            reveal_strlit("is-error");
            assert("is-error"@.len() != "xor"@.len());
        } else if j == 9 {
            reveal_strlit("catch");
            assert("catch"@.len() != "xor"@.len());
        } else if j == 10 {
            reveal_strlit("new-state");
            assert("new-state"@.len() != "xor"@.len());
        }
    }
    lemma_last_named_none(signature_part10(), "xor"@);
    assert forall|j: int| 0 <= j < signature_part11().len() implies #[trigger] signature_part11()[j].name != "xor"@ by {
        if j == 0 {
            reveal_strlit("get-state");
            assert("get-state"@.len() != "xor"@.len());
        } else if j == 1 {
            reveal_strlit("change-state!");
            assert("change-state!"@.len() != "xor"@.len());
        } else if j == 2 {
            reveal_strlit("println!");
            assert("println!"@.len() != "xor"@.len());
        } else if j == 3 {
            reveal_strlit("trace!");
            assert("trace!"@.len() != "xor"@.len());
        } else if j == 4 {
            reveal_strlit("repr");
            assert("repr"@.len() != "xor"@.len());
        } else if j == 5 {
            reveal_strlit("format-args");
            assert("format-args"@.len() != "xor"@.len());
        } else if j == 6 {
            reveal_strlit("=alpha");
            assert("=alpha"@.len() != "xor"@.len());
        } else if j == 7 {
            reveal_strlit("include");
            assert("include"@.len() != "xor"@.len());
        } else if j == 8 {
            reveal_strlit("import!");
            assert("import!"@.len() != "xor"@.len());
        } else if j == 9 {
            reveal_strlit("bind!");
            assert("bind!"@.len() != "xor"@.len());
        } else if j == 10 {
            reveal_strlit("mod-space!");
            assert("mod-space!"@.len() != "xor"@.len());
        }
    }
    lemma_last_named_none(signature_part11(), "xor"@);
    assert forall|j: int| 0 <= j < signature_part12().len() implies #[trigger] signature_part12()[j].name != "xor"@ by {
        if j == 0 {
            reveal_strlit("print-mods!");
            assert("print-mods!"@.len() != "xor"@.len());
        } else if j == 1 {
            reveal_strlit("pragma!");
            assert("pragma!"@.len() != "xor"@.len());
        } else if j == 2 {
            reveal_strlit("new-memo");
            assert("new-memo"@.len() != "xor"@.len());
        } else if j == 3 {
            reveal_strlit("memo");
            assert("memo"@.len() != "xor"@.len());
        } else if j == 4 {
            reveal_strlit("memo-first");
            assert("memo-first"@.len() != "xor"@.len());
        } else if j == 5 {
            reveal_strlit("clear-memo!");
            assert("clear-memo!"@.len() != "xor"@.len());
        } else if j == 6 {
            reveal_strlit("memo-stats");
            assert("memo-stats"@.len() != "xor"@.len());
        } else if j == 7 {
            reveal_strlit("assertEqual");
            assert("assertEqual"@.len() != "xor"@.len());
        } else if j == 8 {
            reveal_strlit("assertEqualMsg");
            assert("assertEqualMsg"@.len() != "xor"@.len());
        } else if j == 9 {
            reveal_strlit("assertAlphaEqual");
            assert("assertAlphaEqual"@.len() != "xor"@.len());
        } else if j == 10 {
            reveal_strlit("assertAlphaEqualMsg");
            assert("assertAlphaEqualMsg"@.len() != "xor"@.len());
        }
    }
    lemma_last_named_none(signature_part12(), "xor"@);
    assert forall|j: int| 0 <= j < signature_part13().len() implies #[trigger] signature_part13()[j].name != "xor"@ by {
        if j == 0 {
            reveal_strlit("assertEqualToResult");
            assert("assertEqualToResult"@.len() != "xor"@.len());
        } else if j == 1 {
            reveal_strlit("assertEqualToResultMsg");
            assert("assertEqualToResultMsg"@.len() != "xor"@.len());
        } else if j == 2 {
            reveal_strlit("assertAlphaEqualToResult");
            assert("assertAlphaEqualToResult"@.len() != "xor"@.len());
        } else if j == 3 {
            reveal_strlit("assertAlphaEqualToResultMsg");
            assert("assertAlphaEqualToResultMsg"@.len() != "xor"@.len());
        }
    }
    lemma_last_named_none(signature_part13(), "xor"@);
    lemma_found_base(3, "xor"@, 10);
    lemma_found_step(4, "xor"@, signature_prefix(3).len() - signature_part(3).len() + 10);
    lemma_found_step(5, "xor"@, signature_prefix(3).len() - signature_part(3).len() + 10);
    lemma_found_step(6, "xor"@, signature_prefix(3).len() - signature_part(3).len() + 10);
    lemma_found_step(7, "xor"@, signature_prefix(3).len() - signature_part(3).len() + 10);
    lemma_found_step(8, "xor"@, signature_prefix(3).len() - signature_part(3).len() + 10);
    lemma_found_step(9, "xor"@, signature_prefix(3).len() - signature_part(3).len() + 10);
    lemma_found_step(10, "xor"@, signature_prefix(3).len() - signature_part(3).len() + 10);
    lemma_found_step(11, "xor"@, signature_prefix(3).len() - signature_part(3).len() + 10);
    lemma_found_step(12, "xor"@, signature_prefix(3).len() - signature_part(3).len() + 10);
    lemma_found_step(13, "xor"@, signature_prefix(3).len() - signature_part(3).len() + 10);
    lemma_table_prefix();
}

/// The registry holds `index-atom` once, as entry 6 of part 7.
proof fn lemma_registered_index_atom()
    ensures
        signature_of("index-atom"@) == Some(signature_part6()[6]),
{
    broadcast use vstd::string::group_string_axioms;

    reveal_strlit("index-atom");
    assert forall|j: int| 7 <= j < signature_part6().len() implies #[trigger] signature_part6()[j].name != "index-atom"@ by {
        if j == 7 {
            reveal_strlit("empty");
            assert("empty"@.len() != "index-atom"@.len());
        } else if j == 8 {
            reveal_strlit("tuple-concat");
            assert("tuple-concat"@.len() != "index-atom"@.len());
        } else if j == 9 {
            reveal_strlit("tuple-count");
            assert("tuple-count"@.len() != "index-atom"@.len());
        } else if j == 10 {
            reveal_strlit("without");
            assert("without"@.len() != "index-atom"@.len());
        }
    }
    lemma_last_named_at(signature_part6(), "index-atom"@, 6);
    assert forall|j: int| 0 <= j < signature_part7().len() implies #[trigger] signature_part7()[j].name != "index-atom"@ by {
        if j == 0 {
            reveal_strlit("element-of");
            assert("element-of"@[0] != "index-atom"@[0]);
        } else if j == 1 {
            reveal_strlit("range");
            assert("range"@.len() != "index-atom"@.len());
        } else if j == 2 {
            reveal_strlit("reverse-atom");
            assert("reverse-atom"@.len() != "index-atom"@.len());
        } else if j == 3 {
            reveal_strlit("flatten-atom");
            assert("flatten-atom"@.len() != "index-atom"@.len());
        } else if j == 4 {
            reveal_strlit("zip-atom");
            assert("zip-atom"@.len() != "index-atom"@.len());
        } else if j == 5 {
            reveal_strlit("take-atom");
            assert("take-atom"@.len() != "index-atom"@.len());
        } else if j == 6 {
            reveal_strlit("drop-atom");
            assert("drop-atom"@.len() != "index-atom"@.len());
        } else if j == 7 {
            reveal_strlit("map-atom");
            assert("map-atom"@.len() != "index-atom"@.len());
        } else if j == 8 {
            reveal_strlit("filter-atom");
            assert("filter-atom"@.len() != "index-atom"@.len());
        } else if j == 9 {
            reveal_strlit("foldl-atom");
            assert("foldl-atom"@[0] != "index-atom"@[0]);
        } else if j == 10 {
            reveal_strlit("sort-tuple");
            assert("sort-tuple"@[0] != "index-atom"@[0]);
        }
    }
    lemma_last_named_none(signature_part7(), "index-atom"@);
    assert forall|j: int| 0 <= j < signature_part8().len() implies #[trigger] signature_part8()[j].name != "index-atom"@ by {
        if j == 0 {
            reveal_strlit("best-candidate");
            assert("best-candidate"@.len() != "index-atom"@.len());
        } else if j == 1 {
            reveal_strlit("unique-atom");
            assert("unique-atom"@.len() != "index-atom"@.len());
        } else if j == 2 {
            reveal_strlit("union-atom");
            assert("union-atom"@[0] != "index-atom"@[0]);
        } else if j == 3 {
            reveal_strlit("intersection-atom");
            assert("intersection-atom"@.len() != "index-atom"@.len());
        } else if j == 4 {
            reveal_strlit("subtraction-atom");
            assert("subtraction-atom"@.len() != "index-atom"@.len());
        } else if j == 5 {
            reveal_strlit("superpose");
            assert("superpose"@.len() != "index-atom"@.len());
        } else if j == 6 {
            reveal_strlit("amb");
            assert("amb"@.len() != "index-atom"@.len());
        } else if j == 7 {
            reveal_strlit("guard");
            assert("guard"@.len() != "index-atom"@.len());
        } else if j == 8 {
            reveal_strlit("commit");
            assert("commit"@.len() != "index-atom"@.len());
        } else if j == 9 {
            reveal_strlit("backtrack");
            assert("backtrack"@.len() != "index-atom"@.len());
        } else if j == 10 {
            reveal_strlit("quote");
            assert("quote"@.len() != "index-atom"@.len());
        }
    }
    lemma_last_named_none(signature_part8(), "index-atom"@);
    assert forall|j: int| 0 <= j < signature_part9().len() implies #[trigger] signature_part9()[j].name != "index-atom"@ by {
        if j == 0 {
            reveal_strlit("unquote");
            assert("unquote"@.len() != "index-atom"@.len());
        } else if j == 1 {
            reveal_strlit("eval");
            assert("eval"@.len() != "index-atom"@.len());
        } else if j == 2 {
            reveal_strlit("!");
            assert("!"@.len() != "index-atom"@.len());
        } else if j == 3 {
            reveal_strlit("sealed");
            assert("sealed"@.len() != "index-atom"@.len());
        } else if j == 4 {
            reveal_strlit("atom-subst");
            assert("atom-subst"@[0] != "index-atom"@[0]);
        } else if j == 5 {
            reveal_strlit("nop");
            assert("nop"@.len() != "index-atom"@.len());
        } else if j == 6 {
            reveal_strlit("get-type");
            assert("get-type"@.len() != "index-atom"@.len());
        } else if j == 7 {
            reveal_strlit("check-type");
            assert("check-type"@[0] != "index-atom"@[0]);
        } else if j == 8 {
            reveal_strlit("get-metatype");
            assert("get-metatype"@.len() != "index-atom"@.len());
        } else if j == 9 {
            reveal_strlit("validate-atom");
            assert("validate-atom"@.len() != "index-atom"@.len());
        } else if j == 10 {
            reveal_strlit("get-type-space");
            assert("get-type-space"@.len() != "index-atom"@.len());
        }
    }
    lemma_last_named_none(signature_part9(), "index-atom"@);
    assert forall|j: int| 0 <= j < signature_part10().len() implies #[trigger] signature_part10()[j].name != "index-atom"@ by {
        if j == 0 {
            reveal_strlit("is-function");
            assert("is-function"@.len() != "index-atom"@.len());
        } else if j == 1 {
            reveal_strlit("type-cast");
            assert("type-cast"@.len() != "index-atom"@.len());
        } else if j == 2 {
            reveal_strlit("metta");
            assert("metta"@.len() != "index-atom"@.len());
        } else if j == 3 {
            reveal_strlit("match-type-or");
            assert("match-type-or"@.len() != "index-atom"@.len());
        } else if j == 4 {
            reveal_strlit("first-from-pair");
            assert("first-from-pair"@.len() != "index-atom"@.len());
        } else if j == 5 {
            reveal_strlit(":<");
            assert(":<"@.len() != "index-atom"@.len());
        } else if j == 6 {
            reveal_strlit("Error");
            assert("Error"@.len() != "index-atom"@.len());
        } else if j == 7 {
            reveal_strlit("error");
            assert("error"@.len() != "index-atom"@.len());
        } else if j == 8 {
            reveal_strlit("is-error");
            assert("is-error"@.len() != "index-atom"@.len());
        } else if j == 9 {
            reveal_strlit("catch");
            assert("catch"@.len() != "index-atom"@.len());
        } else if j == 10 {
            reveal_strlit("new-state");
            assert("new-state"@.len() != "index-atom"@.len());
        }
    }
    lemma_last_named_none(signature_part10(), "index-atom"@);
    assert forall|j: int| 0 <= j < signature_part11().len() implies #[trigger] signature_part11()[j].name != "index-atom"@ by {
        if j == 0 {
            reveal_strlit("get-state");
            assert("get-state"@.len() != "index-atom"@.len());
        } else if j == 1 {
            reveal_strlit("change-state!");
            assert("change-state!"@.len() != "index-atom"@.len());
        } else if j == 2 {
            reveal_strlit("println!");
            assert("println!"@.len() != "index-atom"@.len());
        } else if j == 3 {
            reveal_strlit("trace!");
            assert("trace!"@.len() != "index-atom"@.len());
        } else if j == 4 {
            reveal_strlit("repr");
            assert("repr"@.len() != "index-atom"@.len());
        } else if j == 5 {
            reveal_strlit("format-args");
            assert("format-args"@.len() != "index-atom"@.len());
        } else if j == 6 {
            reveal_strlit("=alpha");
            assert("=alpha"@.len() != "index-atom"@.len());
        } else if j == 7 {
            reveal_strlit("include");
            assert("include"@.len() != "index-atom"@.len());
        } else if j == 8 {
            reveal_strlit("import!");
            assert("import!"@.len() != "index-atom"@.len());
        } else if j == 9 {
            reveal_strlit("bind!");
            assert("bind!"@.len() != "index-atom"@.len());
        } else if j == 10 {
            reveal_strlit("mod-space!");
            assert("mod-space!"@[0] != "index-atom"@[0]);
        }
    }
    lemma_last_named_none(signature_part11(), "index-atom"@);
    assert forall|j: int| 0 <= j < signature_part12().len() implies #[trigger] signature_part12()[j].name != "index-atom"@ by {
        if j == 0 {
            reveal_strlit("print-mods!");
            assert("print-mods!"@.len() != "index-atom"@.len());
        } else if j == 1 {
            reveal_strlit("pragma!");
            assert("pragma!"@.len() != "index-atom"@.len());
        } else if j == 2 {
            reveal_strlit("new-memo");
            assert("new-memo"@.len() != "index-atom"@.len());
        } else if j == 3 {
            reveal_strlit("memo");
            assert("memo"@.len() != "index-atom"@.len());
        } else if j == 4 {
            reveal_strlit("memo-first");
            assert("memo-first"@[0] != "index-atom"@[0]);
        } else if j == 5 {
            reveal_strlit("clear-memo!");
            assert("clear-memo!"@.len() != "index-atom"@.len());
        } else if j == 6 {
            reveal_strlit("memo-stats");
            assert("memo-stats"@[0] != "index-atom"@[0]);
        } else if j == 7 {
            reveal_strlit("assertEqual");
            assert("assertEqual"@.len() != "index-atom"@.len());
        } else if j == 8 {
            reveal_strlit("assertEqualMsg");
            assert("assertEqualMsg"@.len() != "index-atom"@.len());
        } else if j == 9 {
            reveal_strlit("assertAlphaEqual");
            assert("assertAlphaEqual"@.len() != "index-atom"@.len());
        } else if j == 10 {
            reveal_strlit("assertAlphaEqualMsg");
            assert("assertAlphaEqualMsg"@.len() != "index-atom"@.len());
        }
    }
    lemma_last_named_none(signature_part12(), "index-atom"@);
    assert forall|j: int| 0 <= j < signature_part13().len() implies #[trigger] signature_part13()[j].name != "index-atom"@ by {
        if j == 0 {
            reveal_strlit("assertEqualToResult");
            assert("assertEqualToResult"@.len() != "index-atom"@.len());
        } else if j == 1 {
            reveal_strlit("assertEqualToResultMsg");
            assert("assertEqualToResultMsg"@.len() != "index-atom"@.len());
        } else if j == 2 {
            reveal_strlit("assertAlphaEqualToResult");
            assert("assertAlphaEqualToResult"@.len() != "index-atom"@.len());
        } else if j == 3 {
            reveal_strlit("assertAlphaEqualToResultMsg");
            assert("assertAlphaEqualToResultMsg"@.len() != "index-atom"@.len());
        }
    }
    lemma_last_named_none(signature_part13(), "index-atom"@);
    lemma_found_base(6, "index-atom"@, 6);
    lemma_found_step(7, "index-atom"@, signature_prefix(6).len() - signature_part(6).len() + 6);
    lemma_found_step(8, "index-atom"@, signature_prefix(6).len() - signature_part(6).len() + 6);
    lemma_found_step(9, "index-atom"@, signature_prefix(6).len() - signature_part(6).len() + 6);
    lemma_found_step(10, "index-atom"@, signature_prefix(6).len() - signature_part(6).len() + 6);
    lemma_found_step(11, "index-atom"@, signature_prefix(6).len() - signature_part(6).len() + 6);
    lemma_found_step(12, "index-atom"@, signature_prefix(6).len() - signature_part(6).len() + 6);
    lemma_found_step(13, "index-atom"@, signature_prefix(6).len() - signature_part(6).len() + 6);
    lemma_table_prefix();
}

/// The registry holds `check-type` once, as entry 7 of part 10.
proof fn lemma_registered_check_type()
    ensures
        signature_of("check-type"@) == Some(signature_part9()[7]),
{
    broadcast use vstd::string::group_string_axioms;

    reveal_strlit("check-type");
    assert forall|j: int| 8 <= j < signature_part9().len() implies #[trigger] signature_part9()[j].name != "check-type"@ by {
        if j == 8 {
            reveal_strlit("get-metatype");
            assert("get-metatype"@.len() != "check-type"@.len());
        } else if j == 9 {
            reveal_strlit("validate-atom");
            assert("validate-atom"@.len() != "check-type"@.len());
        } else if j == 10 {
            reveal_strlit("get-type-space");
            assert("get-type-space"@.len() != "check-type"@.len());
        }
    }
    lemma_last_named_at(signature_part9(), "check-type"@, 7);
    assert forall|j: int| 0 <= j < signature_part10().len() implies #[trigger] signature_part10()[j].name != "check-type"@ by {
        if j == 0 {
            reveal_strlit("is-function");
            assert("is-function"@.len() != "check-type"@.len());
        } else if j == 1 {
            reveal_strlit("type-cast");
            assert("type-cast"@.len() != "check-type"@.len());
        } else if j == 2 {
            reveal_strlit("metta");
            assert("metta"@.len() != "check-type"@.len());
        } else if j == 3 {
            reveal_strlit("match-type-or");
            assert("match-type-or"@.len() != "check-type"@.len());
        } else if j == 4 {
            reveal_strlit("first-from-pair");
            assert("first-from-pair"@.len() != "check-type"@.len());
        } else if j == 5 {
            reveal_strlit(":<");
            assert(":<"@.len() != "check-type"@.len());
        } else if j == 6 {
            reveal_strlit("Error");
            assert("Error"@.len() != "check-type"@.len());
        } else if j == 7 {
            reveal_strlit("error");
            assert("error"@.len() != "check-type"@.len());
        } else if j == 8 {
            reveal_strlit("is-error");
            assert("is-error"@.len() != "check-type"@.len());
        } else if j == 9 {
            reveal_strlit("catch");
            assert("catch"@.len() != "check-type"@.len());
        } else if j == 10 {
            reveal_strlit("new-state");
            assert("new-state"@.len() != "check-type"@.len());
        }
    }
    lemma_last_named_none(signature_part10(), "check-type"@);
    assert forall|j: int| 0 <= j < signature_part11().len() implies #[trigger] signature_part11()[j].name != "check-type"@ by {
        if j == 0 {
            reveal_strlit("get-state");
            assert("get-state"@.len() != "check-type"@.len());
        } else if j == 1 {
            reveal_strlit("change-state!");
            assert("change-state!"@.len() != "check-type"@.len());
        } else if j == 2 {
            reveal_strlit("println!");
            assert("println!"@.len() != "check-type"@.len());
        } else if j == 3 {
            reveal_strlit("trace!");
            assert("trace!"@.len() != "check-type"@.len());
        } else if j == 4 {
            reveal_strlit("repr");
            assert("repr"@.len() != "check-type"@.len());
        } else if j == 5 {
            reveal_strlit("format-args");
            assert("format-args"@.len() != "check-type"@.len());
        } else if j == 6 {
            reveal_strlit("=alpha");
            assert("=alpha"@.len() != "check-type"@.len());
        } else if j == 7 {
            reveal_strlit("include");
            assert("include"@.len() != "check-type"@.len());
        } else if j == 8 {
            reveal_strlit("import!");
            assert("import!"@.len() != "check-type"@.len());
        } else if j == 9 {
            reveal_strlit("bind!");
            assert("bind!"@.len() != "check-type"@.len());
        } else if j == 10 {
            reveal_strlit("mod-space!");
            assert("mod-space!"@[0] != "check-type"@[0]);
        }
    }
    lemma_last_named_none(signature_part11(), "check-type"@);
    assert forall|j: int| 0 <= j < signature_part12().len() implies #[trigger] signature_part12()[j].name != "check-type"@ by {
        if j == 0 {
            reveal_strlit("print-mods!");
            assert("print-mods!"@.len() != "check-type"@.len());
        } else if j == 1 {
            reveal_strlit("pragma!");
            assert("pragma!"@.len() != "check-type"@.len());
        } else if j == 2 {
            reveal_strlit("new-memo");
            assert("new-memo"@.len() != "check-type"@.len());
        } else if j == 3 {
            reveal_strlit("memo");
            assert("memo"@.len() != "check-type"@.len());
        } else if j == 4 {
            reveal_strlit("memo-first");
            assert("memo-first"@[0] != "check-type"@[0]);
        } else if j == 5 {
            reveal_strlit("clear-memo!");
            assert("clear-memo!"@.len() != "check-type"@.len());
        } else if j == 6 {
            reveal_strlit("memo-stats");
            assert("memo-stats"@[0] != "check-type"@[0]);
        } else if j == 7 {
            reveal_strlit("assertEqual");
            assert("assertEqual"@.len() != "check-type"@.len());
        } else if j == 8 {
            reveal_strlit("assertEqualMsg");
            assert("assertEqualMsg"@.len() != "check-type"@.len());
        } else if j == 9 {
            reveal_strlit("assertAlphaEqual");
            assert("assertAlphaEqual"@.len() != "check-type"@.len());
        } else if j == 10 {
            reveal_strlit("assertAlphaEqualMsg");
            assert("assertAlphaEqualMsg"@.len() != "check-type"@.len());
        }
    }
    lemma_last_named_none(signature_part12(), "check-type"@);
    assert forall|j: int| 0 <= j < signature_part13().len() implies #[trigger] signature_part13()[j].name != "check-type"@ by {
        if j == 0 {
            reveal_strlit("assertEqualToResult");
            assert("assertEqualToResult"@.len() != "check-type"@.len());
        } else if j == 1 {
            reveal_strlit("assertEqualToResultMsg");
            assert("assertEqualToResultMsg"@.len() != "check-type"@.len());
        } else if j == 2 {
            reveal_strlit("assertAlphaEqualToResult");
            assert("assertAlphaEqualToResult"@.len() != "check-type"@.len());
        } else if j == 3 {
            reveal_strlit("assertAlphaEqualToResultMsg");
            assert("assertAlphaEqualToResultMsg"@.len() != "check-type"@.len());
        }
    }
    lemma_last_named_none(signature_part13(), "check-type"@);
    lemma_found_base(9, "check-type"@, 7);
    lemma_found_step(10, "check-type"@, signature_prefix(9).len() - signature_part(9).len() + 7);
    lemma_found_step(11, "check-type"@, signature_prefix(9).len() - signature_part(9).len() + 7);
    lemma_found_step(12, "check-type"@, signature_prefix(9).len() - signature_part(9).len() + 7);
    lemma_found_step(13, "check-type"@, signature_prefix(9).len() - signature_part(9).len() + 7);
    lemma_table_prefix();
}

/// The registry holds `cons-atom` once, as entry 1 of part 7.
proof fn lemma_registered_cons_atom()
    ensures
        signature_of("cons-atom"@) == Some(signature_part6()[1]),
{
    broadcast use vstd::string::group_string_axioms;

    reveal_strlit("cons-atom");
    assert forall|j: int| 2 <= j < signature_part6().len() implies #[trigger] signature_part6()[j].name != "cons-atom"@ by {
        if j == 2 {
            reveal_strlit("decons-atom");
            assert("decons-atom"@.len() != "cons-atom"@.len());
        } else if j == 3 {
            reveal_strlit("size-atom");
            assert("size-atom"@[0] != "cons-atom"@[0]);
        } else if j == 4 {
            reveal_strlit("max-atom");
            assert("max-atom"@.len() != "cons-atom"@.len());
        } else if j == 5 {
            reveal_strlit("min-atom");
            assert("min-atom"@.len() != "cons-atom"@.len());
        } else if j == 6 {
            reveal_strlit("index-atom");
            assert("index-atom"@.len() != "cons-atom"@.len());
        } else if j == 7 {
            reveal_strlit("empty");
            assert("empty"@.len() != "cons-atom"@.len());
        } else if j == 8 {
            reveal_strlit("tuple-concat");
            assert("tuple-concat"@.len() != "cons-atom"@.len());
        } else if j == 9 {
            reveal_strlit("tuple-count");
            assert("tuple-count"@.len() != "cons-atom"@.len());
        } else if j == 10 {
            reveal_strlit("without");
            assert("without"@.len() != "cons-atom"@.len());
        }
    }
    lemma_last_named_at(signature_part6(), "cons-atom"@, 1);
    assert forall|j: int| 0 <= j < signature_part7().len() implies #[trigger] signature_part7()[j].name != "cons-atom"@ by {
        if j == 0 {
            reveal_strlit("element-of");
            assert("element-of"@.len() != "cons-atom"@.len());
        } else if j == 1 {
            reveal_strlit("range");
            assert("range"@.len() != "cons-atom"@.len());
        } else if j == 2 {
            reveal_strlit("reverse-atom");
            assert("reverse-atom"@.len() != "cons-atom"@.len());
        } else if j == 3 {
            reveal_strlit("flatten-atom");
            assert("flatten-atom"@.len() != "cons-atom"@.len());
        } else if j == 4 {
            reveal_strlit("zip-atom");
            assert("zip-atom"@.len() != "cons-atom"@.len());
        } else if j == 5 {
            reveal_strlit("take-atom");
            assert("take-atom"@[0] != "cons-atom"@[0]);
        } else if j == 6 {
            reveal_strlit("drop-atom");
            assert("drop-atom"@[0] != "cons-atom"@[0]);
        } else if j == 7 {
            reveal_strlit("map-atom");
            assert("map-atom"@.len() != "cons-atom"@.len());
        } else if j == 8 {
            reveal_strlit("filter-atom");
            assert("filter-atom"@.len() != "cons-atom"@.len());
        } else if j == 9 {
            reveal_strlit("foldl-atom");
            assert("foldl-atom"@.len() != "cons-atom"@.len());
        } else if j == 10 {
            reveal_strlit("sort-tuple");
            assert("sort-tuple"@.len() != "cons-atom"@.len());
        }
    }
    lemma_last_named_none(signature_part7(), "cons-atom"@);
    assert forall|j: int| 0 <= j < signature_part8().len() implies #[trigger] signature_part8()[j].name != "cons-atom"@ by {
        if j == 0 {
            reveal_strlit("best-candidate");
            assert("best-candidate"@.len() != "cons-atom"@.len());
        } else if j == 1 {
            reveal_strlit("unique-atom");
            assert("unique-atom"@.len() != "cons-atom"@.len());
        } else if j == 2 {
            reveal_strlit("union-atom");
            assert("union-atom"@.len() != "cons-atom"@.len());
        } else if j == 3 {
            reveal_strlit("intersection-atom");
            assert("intersection-atom"@.len() != "cons-atom"@.len());
        } else if j == 4 {
            reveal_strlit("subtraction-atom");
            assert("subtraction-atom"@.len() != "cons-atom"@.len());
        } else if j == 5 {
            reveal_strlit("superpose");
            assert("superpose"@[0] != "cons-atom"@[0]);
        } else if j == 6 {
            reveal_strlit("amb");
            assert("amb"@.len() != "cons-atom"@.len());
        } else if j == 7 {
            reveal_strlit("guard");
            assert("guard"@.len() != "cons-atom"@.len());
        } else if j == 8 {
            reveal_strlit("commit");
            assert("commit"@.len() != "cons-atom"@.len());
        } else if j == 9 {
            reveal_strlit("backtrack");
            assert("backtrack"@[0] != "cons-atom"@[0]);
        } else if j == 10 {
            reveal_strlit("quote");
            assert("quote"@.len() != "cons-atom"@.len());
        }
    }
    lemma_last_named_none(signature_part8(), "cons-atom"@);
    assert forall|j: int| 0 <= j < signature_part9().len() implies #[trigger] signature_part9()[j].name != "cons-atom"@ by {
        if j == 0 {
            reveal_strlit("unquote");
            assert("unquote"@.len() != "cons-atom"@.len());
        } else if j == 1 {
            reveal_strlit("eval");
            assert("eval"@.len() != "cons-atom"@.len());
        } else if j == 2 {
            reveal_strlit("!");
            assert("!"@.len() != "cons-atom"@.len());
        } else if j == 3 {
            reveal_strlit("sealed");
            assert("sealed"@.len() != "cons-atom"@.len());
        } else if j == 4 {
            reveal_strlit("atom-subst");
            assert("atom-subst"@.len() != "cons-atom"@.len());
        } else if j == 5 {
            reveal_strlit("nop");
            assert("nop"@.len() != "cons-atom"@.len());
        } else if j == 6 {
            reveal_strlit("get-type");
            assert("get-type"@.len() != "cons-atom"@.len());
        } else if j == 7 {
            reveal_strlit("check-type");
            assert("check-type"@.len() != "cons-atom"@.len());
        } else if j == 8 {
            reveal_strlit("get-metatype");
            assert("get-metatype"@.len() != "cons-atom"@.len());
        } else if j == 9 {
            reveal_strlit("validate-atom");
            assert("validate-atom"@.len() != "cons-atom"@.len());
        } else if j == 10 {
            reveal_strlit("get-type-space");
            assert("get-type-space"@.len() != "cons-atom"@.len());
        }
    }
    lemma_last_named_none(signature_part9(), "cons-atom"@);
    assert forall|j: int| 0 <= j < signature_part10().len() implies #[trigger] signature_part10()[j].name != "cons-atom"@ by {
        if j == 0 {
            reveal_strlit("is-function");
            assert("is-function"@.len() != "cons-atom"@.len());
        } else if j == 1 {
            reveal_strlit("type-cast");
            assert("type-cast"@[0] != "cons-atom"@[0]);
        } else if j == 2 {
            reveal_strlit("metta");
            assert("metta"@.len() != "cons-atom"@.len());
        } else if j == 3 {
            reveal_strlit("match-type-or");
            assert("match-type-or"@.len() != "cons-atom"@.len());
        } else if j == 4 {
            reveal_strlit("first-from-pair");
            assert("first-from-pair"@.len() != "cons-atom"@.len());
        } else if j == 5 {
            reveal_strlit(":<");
            assert(":<"@.len() != "cons-atom"@.len());
        } else if j == 6 {
            reveal_strlit("Error");
            assert("Error"@.len() != "cons-atom"@.len());
        } else if j == 7 {
            reveal_strlit("error");
            assert("error"@.len() != "cons-atom"@.len());
        } else if j == 8 {
            reveal_strlit("is-error");
            assert("is-error"@.len() != "cons-atom"@.len());
        } else if j == 9 {
            reveal_strlit("catch");
            assert("catch"@.len() != "cons-atom"@.len());
        } else if j == 10 {
            reveal_strlit("new-state");
            assert("new-state"@[0] != "cons-atom"@[0]);
        }
    }
    lemma_last_named_none(signature_part10(), "cons-atom"@);
    assert forall|j: int| 0 <= j < signature_part11().len() implies #[trigger] signature_part11()[j].name != "cons-atom"@ by {
        if j == 0 {
            reveal_strlit("get-state");
            assert("get-state"@[0] != "cons-atom"@[0]);
        } else if j == 1 {
            reveal_strlit("change-state!");
            assert("change-state!"@.len() != "cons-atom"@.len());
        } else if j == 2 {
            reveal_strlit("println!");
            assert("println!"@.len() != "cons-atom"@.len());
        } else if j == 3 {
            reveal_strlit("trace!");
            assert("trace!"@.len() != "cons-atom"@.len());
        } else if j == 4 {
            reveal_strlit("repr");
            assert("repr"@.len() != "cons-atom"@.len());
        } else if j == 5 {
            reveal_strlit("format-args");
            assert("format-args"@.len() != "cons-atom"@.len());
        } else if j == 6 {
            reveal_strlit("=alpha");
            assert("=alpha"@.len() != "cons-atom"@.len());
        } else if j == 7 {
            reveal_strlit("include");
            assert("include"@.len() != "cons-atom"@.len());
        } else if j == 8 {
            reveal_strlit("import!");
            assert("import!"@.len() != "cons-atom"@.len());
        } else if j == 9 {
            reveal_strlit("bind!");
            assert("bind!"@.len() != "cons-atom"@.len());
        } else if j == 10 {
            reveal_strlit("mod-space!");
            assert("mod-space!"@.len() != "cons-atom"@.len());
        }
    }
    lemma_last_named_none(signature_part11(), "cons-atom"@);
    assert forall|j: int| 0 <= j < signature_part12().len() implies #[trigger] signature_part12()[j].name != "cons-atom"@ by {
        if j == 0 {
            reveal_strlit("print-mods!");
            assert("print-mods!"@.len() != "cons-atom"@.len());
        } else if j == 1 {
            reveal_strlit("pragma!");
            assert("pragma!"@.len() != "cons-atom"@.len());
        } else if j == 2 {
            reveal_strlit("new-memo");
            assert("new-memo"@.len() != "cons-atom"@.len());
        } else if j == 3 {
            reveal_strlit("memo");
            assert("memo"@.len() != "cons-atom"@.len());
        } else if j == 4 {
            reveal_strlit("memo-first");
            assert("memo-first"@.len() != "cons-atom"@.len());
        } else if j == 5 {
            reveal_strlit("clear-memo!");
            assert("clear-memo!"@.len() != "cons-atom"@.len());
        } else if j == 6 {
            reveal_strlit("memo-stats");
            assert("memo-stats"@.len() != "cons-atom"@.len());
        } else if j == 7 {
            reveal_strlit("assertEqual");
            assert("assertEqual"@.len() != "cons-atom"@.len());
        } else if j == 8 {
            reveal_strlit("assertEqualMsg");
            assert("assertEqualMsg"@.len() != "cons-atom"@.len());
        } else if j == 9 {
            reveal_strlit("assertAlphaEqual");
            assert("assertAlphaEqual"@.len() != "cons-atom"@.len());
        } else if j == 10 {
            reveal_strlit("assertAlphaEqualMsg");
            assert("assertAlphaEqualMsg"@.len() != "cons-atom"@.len());
        }
    }
    lemma_last_named_none(signature_part12(), "cons-atom"@);
    assert forall|j: int| 0 <= j < signature_part13().len() implies #[trigger] signature_part13()[j].name != "cons-atom"@ by {
        if j == 0 {
            reveal_strlit("assertEqualToResult");
            assert("assertEqualToResult"@.len() != "cons-atom"@.len());
        } else if j == 1 {
            reveal_strlit("assertEqualToResultMsg");
            assert("assertEqualToResultMsg"@.len() != "cons-atom"@.len());
        } else if j == 2 {
            reveal_strlit("assertAlphaEqualToResult");
            assert("assertAlphaEqualToResult"@.len() != "cons-atom"@.len());
        } else if j == 3 {
            reveal_strlit("assertAlphaEqualToResultMsg");
            assert("assertAlphaEqualToResultMsg"@.len() != "cons-atom"@.len());
        }
    }
    lemma_last_named_none(signature_part13(), "cons-atom"@);
    lemma_found_base(6, "cons-atom"@, 1);
    lemma_found_step(7, "cons-atom"@, signature_prefix(6).len() - signature_part(6).len() + 1);
    lemma_found_step(8, "cons-atom"@, signature_prefix(6).len() - signature_part(6).len() + 1);
    lemma_found_step(9, "cons-atom"@, signature_prefix(6).len() - signature_part(6).len() + 1);
    lemma_found_step(10, "cons-atom"@, signature_prefix(6).len() - signature_part(6).len() + 1);
    lemma_found_step(11, "cons-atom"@, signature_prefix(6).len() - signature_part(6).len() + 1);
    lemma_found_step(12, "cons-atom"@, signature_prefix(6).len() - signature_part(6).len() + 1);
    lemma_found_step(13, "cons-atom"@, signature_prefix(6).len() - signature_part(6).len() + 1);
    lemma_table_prefix();
}

/// The registry holds `add-atom` once, as entry 5 of part 6.
proof fn lemma_registered_add_atom()
    ensures
        signature_of("add-atom"@) == Some(signature_part5()[5]),
{
    broadcast use vstd::string::group_string_axioms;

    reveal_strlit("add-atom");
    assert forall|j: int| 6 <= j < signature_part5().len() implies #[trigger] signature_part5()[j].name != "add-atom"@ by {
        if j == 6 {
            reveal_strlit("remove-atom");
            assert("remove-atom"@.len() != "add-atom"@.len());
        } else if j == 7 {
            reveal_strlit("get-atoms");
            assert("get-atoms"@.len() != "add-atom"@.len());
        } else if j == 8 {
            reveal_strlit("collapse");
            assert("collapse"@[0] != "add-atom"@[0]);
        } else if j == 9 {
            reveal_strlit("collapse-bind");
            assert("collapse-bind"@.len() != "add-atom"@.len());
        } else if j == 10 {
            reveal_strlit("car-atom");
            assert("car-atom"@[0] != "add-atom"@[0]);
        }
    }
    lemma_last_named_at(signature_part5(), "add-atom"@, 5);
    assert forall|j: int| 0 <= j < signature_part6().len() implies #[trigger] signature_part6()[j].name != "add-atom"@ by {
        if j == 0 {
            reveal_strlit("cdr-atom");
            assert("cdr-atom"@[0] != "add-atom"@[0]);
        } else if j == 1 {
            reveal_strlit("cons-atom");
            assert("cons-atom"@.len() != "add-atom"@.len());
        } else if j == 2 {
            reveal_strlit("decons-atom");
            assert("decons-atom"@.len() != "add-atom"@.len());
        } else if j == 3 {
            reveal_strlit("size-atom");
            assert("size-atom"@.len() != "add-atom"@.len());
        } else if j == 4 {
            reveal_strlit("max-atom");
            assert("max-atom"@[0] != "add-atom"@[0]);
        } else if j == 5 {
            reveal_strlit("min-atom");
            assert("min-atom"@[0] != "add-atom"@[0]);
        } else if j == 6 {
            reveal_strlit("index-atom");
            assert("index-atom"@.len() != "add-atom"@.len());
        } else if j == 7 {
            reveal_strlit("empty");
            assert("empty"@.len() != "add-atom"@.len());
        } else if j == 8 {
            reveal_strlit("tuple-concat");
            assert("tuple-concat"@.len() != "add-atom"@.len());
        } else if j == 9 {
            reveal_strlit("tuple-count");
            assert("tuple-count"@.len() != "add-atom"@.len());
        } else if j == 10 {
            reveal_strlit("without");
            assert("without"@.len() != "add-atom"@.len());
        }
    }
    lemma_last_named_none(signature_part6(), "add-atom"@);
    assert forall|j: int| 0 <= j < signature_part7().len() implies #[trigger] signature_part7()[j].name != "add-atom"@ by {
        if j == 0 {
            reveal_strlit("element-of");
            assert("element-of"@.len() != "add-atom"@.len());
        } else if j == 1 {
            reveal_strlit("range");
            assert("range"@.len() != "add-atom"@.len());
        } else if j == 2 {
            reveal_strlit("reverse-atom");
            assert("reverse-atom"@.len() != "add-atom"@.len());
        } else if j == 3 {
            reveal_strlit("flatten-atom");
            assert("flatten-atom"@.len() != "add-atom"@.len());
        } else if j == 4 {
            reveal_strlit("zip-atom");
            assert("zip-atom"@[0] != "add-atom"@[0]);
        } else if j == 5 {
            reveal_strlit("take-atom");
            assert("take-atom"@.len() != "add-atom"@.len());
        } else if j == 6 {
            reveal_strlit("drop-atom");
            assert("drop-atom"@.len() != "add-atom"@.len());
        } else if j == 7 {
            reveal_strlit("map-atom");
            assert("map-atom"@[0] != "add-atom"@[0]);
        } else if j == 8 {
            reveal_strlit("filter-atom");
            assert("filter-atom"@.len() != "add-atom"@.len());
        } else if j == 9 {
            reveal_strlit("foldl-atom");
            assert("foldl-atom"@.len() != "add-atom"@.len());
        } else if j == 10 {
            reveal_strlit("sort-tuple");
            assert("sort-tuple"@.len() != "add-atom"@.len());
        }
    }
    lemma_last_named_none(signature_part7(), "add-atom"@);
    assert forall|j: int| 0 <= j < signature_part8().len() implies #[trigger] signature_part8()[j].name != "add-atom"@ by {
        if j == 0 {
            reveal_strlit("best-candidate");
            assert("best-candidate"@.len() != "add-atom"@.len());
        } else if j == 1 {
            reveal_strlit("unique-atom");
            assert("unique-atom"@.len() != "add-atom"@.len());
        } else if j == 2 {
            reveal_strlit("union-atom");
            assert("union-atom"@.len() != "add-atom"@.len());
        } else if j == 3 {
            reveal_strlit("intersection-atom");
            assert("intersection-atom"@.len() != "add-atom"@.len());
        } else if j == 4 {
            reveal_strlit("subtraction-atom");
            assert("subtraction-atom"@.len() != "add-atom"@.len());
        } else if j == 5 {
            reveal_strlit("superpose");
            assert("superpose"@.len() != "add-atom"@.len());
        } else if j == 6 {
            reveal_strlit("amb");
            assert("amb"@.len() != "add-atom"@.len());
        } else if j == 7 {
            reveal_strlit("guard");
            assert("guard"@.len() != "add-atom"@.len());
        } else if j == 8 {
            reveal_strlit("commit");
            assert("commit"@.len() != "add-atom"@.len());
        } else if j == 9 {
            reveal_strlit("backtrack");
            assert("backtrack"@.len() != "add-atom"@.len());
        } else if j == 10 {
            reveal_strlit("quote");
            assert("quote"@.len() != "add-atom"@.len());
        }
    }
    lemma_last_named_none(signature_part8(), "add-atom"@);
    assert forall|j: int| 0 <= j < signature_part9().len() implies #[trigger] signature_part9()[j].name != "add-atom"@ by {
        if j == 0 {
            reveal_strlit("unquote");
            assert("unquote"@.len() != "add-atom"@.len());
        } else if j == 1 {
            reveal_strlit("eval");
            assert("eval"@.len() != "add-atom"@.len());
        } else if j == 2 {
            reveal_strlit("!");
            assert("!"@.len() != "add-atom"@.len());
        } else if j == 3 {
            reveal_strlit("sealed");
            assert("sealed"@.len() != "add-atom"@.len());
        } else if j == 4 {
            reveal_strlit("atom-subst");
            assert("atom-subst"@.len() != "add-atom"@.len());
        } else if j == 5 {
            reveal_strlit("nop");
            assert("nop"@.len() != "add-atom"@.len());
        } else if j == 6 {
            reveal_strlit("get-type");
            assert("get-type"@[0] != "add-atom"@[0]);
        } else if j == 7 {
            reveal_strlit("check-type");
            assert("check-type"@.len() != "add-atom"@.len());
        } else if j == 8 {
            reveal_strlit("get-metatype");
            assert("get-metatype"@.len() != "add-atom"@.len());
        } else if j == 9 {
            reveal_strlit("validate-atom");
            assert("validate-atom"@.len() != "add-atom"@.len());
        } else if j == 10 {
            reveal_strlit("get-type-space");
            assert("get-type-space"@.len() != "add-atom"@.len());
        }
    }
    lemma_last_named_none(signature_part9(), "add-atom"@);
    assert forall|j: int| 0 <= j < signature_part10().len() implies #[trigger] signature_part10()[j].name != "add-atom"@ by {
        if j == 0 {
            reveal_strlit("is-function");
            assert("is-function"@.len() != "add-atom"@.len());
        } else if j == 1 {
            reveal_strlit("type-cast");
            assert("type-cast"@.len() != "add-atom"@.len());
        } else if j == 2 {
            reveal_strlit("metta");
            assert("metta"@.len() != "add-atom"@.len());
        } else if j == 3 {
            reveal_strlit("match-type-or");
            assert("match-type-or"@.len() != "add-atom"@.len());
        } else if j == 4 {
            reveal_strlit("first-from-pair");
            assert("first-from-pair"@.len() != "add-atom"@.len());
        } else if j == 5 {
            reveal_strlit(":<");
            assert(":<"@.len() != "add-atom"@.len());
        } else if j == 6 {
            reveal_strlit("Error");
            assert("Error"@.len() != "add-atom"@.len());
        } else if j == 7 {
            reveal_strlit("error");
            assert("error"@.len() != "add-atom"@.len());
        } else if j == 8 {
            reveal_strlit("is-error");
            assert("is-error"@[0] != "add-atom"@[0]);
        } else if j == 9 {
            reveal_strlit("catch");
            assert("catch"@.len() != "add-atom"@.len());
        } else if j == 10 {
            reveal_strlit("new-state");
            assert("new-state"@.len() != "add-atom"@.len());
        }
    }
    lemma_last_named_none(signature_part10(), "add-atom"@);
    assert forall|j: int| 0 <= j < signature_part11().len() implies #[trigger] signature_part11()[j].name != "add-atom"@ by {
        if j == 0 {
            reveal_strlit("get-state");
            assert("get-state"@.len() != "add-atom"@.len());
        } else if j == 1 {
            reveal_strlit("change-state!");
            assert("change-state!"@.len() != "add-atom"@.len());
        } else if j == 2 {
            reveal_strlit("println!");
            assert("println!"@[0] != "add-atom"@[0]);
        } else if j == 3 {
            reveal_strlit("trace!");
            assert("trace!"@.len() != "add-atom"@.len());
        } else if j == 4 {
            reveal_strlit("repr");
            assert("repr"@.len() != "add-atom"@.len());
        } else if j == 5 {
            reveal_strlit("format-args");
            assert("format-args"@.len() != "add-atom"@.len());
        } else if j == 6 {
            reveal_strlit("=alpha");
            assert("=alpha"@.len() != "add-atom"@.len());
        } else if j == 7 {
            reveal_strlit("include");
            assert("include"@.len() != "add-atom"@.len());
        } else if j == 8 {
            reveal_strlit("import!");
            assert("import!"@.len() != "add-atom"@.len());
        } else if j == 9 {
            reveal_strlit("bind!");
            assert("bind!"@.len() != "add-atom"@.len());
        } else if j == 10 {
            reveal_strlit("mod-space!");
            assert("mod-space!"@.len() != "add-atom"@.len());
        }
    }
    lemma_last_named_none(signature_part11(), "add-atom"@);
    assert forall|j: int| 0 <= j < signature_part12().len() implies #[trigger] signature_part12()[j].name != "add-atom"@ by {
        if j == 0 {
            reveal_strlit("print-mods!");
            assert("print-mods!"@.len() != "add-atom"@.len());
        } else if j == 1 {
            reveal_strlit("pragma!");
            assert("pragma!"@.len() != "add-atom"@.len());
        } else if j == 2 {
            reveal_strlit("new-memo");
            assert("new-memo"@[0] != "add-atom"@[0]);
        } else if j == 3 {
            reveal_strlit("memo");
            assert("memo"@.len() != "add-atom"@.len());
        } else if j == 4 {
            reveal_strlit("memo-first");
            assert("memo-first"@.len() != "add-atom"@.len());
        } else if j == 5 {
            reveal_strlit("clear-memo!");
            assert("clear-memo!"@.len() != "add-atom"@.len());
        } else if j == 6 {
            reveal_strlit("memo-stats");
            assert("memo-stats"@.len() != "add-atom"@.len());
        } else if j == 7 {
            reveal_strlit("assertEqual");
            assert("assertEqual"@.len() != "add-atom"@.len());
        } else if j == 8 {
            reveal_strlit("assertEqualMsg");
            assert("assertEqualMsg"@.len() != "add-atom"@.len());
        } else if j == 9 {
            reveal_strlit("assertAlphaEqual");
            assert("assertAlphaEqual"@.len() != "add-atom"@.len());
        } else if j == 10 {
            reveal_strlit("assertAlphaEqualMsg");
            assert("assertAlphaEqualMsg"@.len() != "add-atom"@.len());
        }
    }
    lemma_last_named_none(signature_part12(), "add-atom"@);
    assert forall|j: int| 0 <= j < signature_part13().len() implies #[trigger] signature_part13()[j].name != "add-atom"@ by {
        if j == 0 {
            reveal_strlit("assertEqualToResult");
            assert("assertEqualToResult"@.len() != "add-atom"@.len());
        } else if j == 1 {
            reveal_strlit("assertEqualToResultMsg");
            assert("assertEqualToResultMsg"@.len() != "add-atom"@.len());
        } else if j == 2 {
            reveal_strlit("assertAlphaEqualToResult");
            assert("assertAlphaEqualToResult"@.len() != "add-atom"@.len());
        } else if j == 3 {
            reveal_strlit("assertAlphaEqualToResultMsg");
            assert("assertAlphaEqualToResultMsg"@.len() != "add-atom"@.len());
        }
    }
    lemma_last_named_none(signature_part13(), "add-atom"@);
    lemma_found_base(5, "add-atom"@, 5);
    lemma_found_step(6, "add-atom"@, signature_prefix(5).len() - signature_part(5).len() + 5);
    lemma_found_step(7, "add-atom"@, signature_prefix(5).len() - signature_part(5).len() + 5);
    lemma_found_step(8, "add-atom"@, signature_prefix(5).len() - signature_part(5).len() + 5);
    lemma_found_step(9, "add-atom"@, signature_prefix(5).len() - signature_part(5).len() + 5);
    lemma_found_step(10, "add-atom"@, signature_prefix(5).len() - signature_part(5).len() + 5);
    lemma_found_step(11, "add-atom"@, signature_prefix(5).len() - signature_part(5).len() + 5);
    lemma_found_step(12, "add-atom"@, signature_prefix(5).len() - signature_part(5).len() + 5);
    lemma_found_step(13, "add-atom"@, signature_prefix(5).len() - signature_part(5).len() + 5);
    lemma_table_prefix();
}

/// The registry holds `remove-atom` once, as entry 6 of part 6.
proof fn lemma_registered_remove_atom()
    ensures
        signature_of("remove-atom"@) == Some(signature_part5()[6]),
{
    broadcast use vstd::string::group_string_axioms;

    reveal_strlit("remove-atom");
    assert forall|j: int| 7 <= j < signature_part5().len() implies #[trigger] signature_part5()[j].name != "remove-atom"@ by {
        if j == 7 {
            reveal_strlit("get-atoms");
            assert("get-atoms"@.len() != "remove-atom"@.len());
        } else if j == 8 {
            reveal_strlit("collapse");
            assert("collapse"@.len() != "remove-atom"@.len());
        } else if j == 9 {
            reveal_strlit("collapse-bind");
            assert("collapse-bind"@.len() != "remove-atom"@.len());
        } else if j == 10 {
            reveal_strlit("car-atom");
            assert("car-atom"@.len() != "remove-atom"@.len());
        }
    }
    lemma_last_named_at(signature_part5(), "remove-atom"@, 6);
    assert forall|j: int| 0 <= j < signature_part6().len() implies #[trigger] signature_part6()[j].name != "remove-atom"@ by {
        if j == 0 {
            reveal_strlit("cdr-atom");
            assert("cdr-atom"@.len() != "remove-atom"@.len());
        } else if j == 1 {
            reveal_strlit("cons-atom");
            assert("cons-atom"@.len() != "remove-atom"@.len());
        } else if j == 2 {
            reveal_strlit("decons-atom");
            assert("decons-atom"@[0] != "remove-atom"@[0]);
        } else if j == 3 {
            reveal_strlit("size-atom");
            assert("size-atom"@.len() != "remove-atom"@.len());
        } else if j == 4 {
            reveal_strlit("max-atom");
            assert("max-atom"@.len() != "remove-atom"@.len());
        } else if j == 5 {
            reveal_strlit("min-atom");
            assert("min-atom"@.len() != "remove-atom"@.len());
        } else if j == 6 {
            reveal_strlit("index-atom");
            assert("index-atom"@.len() != "remove-atom"@.len());
        } else if j == 7 {
            reveal_strlit("empty");
            assert("empty"@.len() != "remove-atom"@.len());
        } else if j == 8 {
            reveal_strlit("tuple-concat");
            assert("tuple-concat"@.len() != "remove-atom"@.len());
        } else if j == 9 {
            reveal_strlit("tuple-count");
            assert("tuple-count"@[0] != "remove-atom"@[0]);
        } else if j == 10 {
            reveal_strlit("without");
            assert("without"@.len() != "remove-atom"@.len());
        }
    }
    lemma_last_named_none(signature_part6(), "remove-atom"@);
    assert forall|j: int| 0 <= j < signature_part7().len() implies #[trigger] signature_part7()[j].name != "remove-atom"@ by {
        if j == 0 {
            reveal_strlit("element-of");
            assert("element-of"@.len() != "remove-atom"@.len());
        } else if j == 1 {
            reveal_strlit("range");
            assert("range"@.len() != "remove-atom"@.len());
        } else if j == 2 {
            reveal_strlit("reverse-atom");
            assert("reverse-atom"@.len() != "remove-atom"@.len());
        } else if j == 3 {
            reveal_strlit("flatten-atom");
            assert("flatten-atom"@.len() != "remove-atom"@.len());
        } else if j == 4 {
            reveal_strlit("zip-atom");
            assert("zip-atom"@.len() != "remove-atom"@.len());
        } else if j == 5 {
            reveal_strlit("take-atom");
            assert("take-atom"@.len() != "remove-atom"@.len());
        } else if j == 6 {
            reveal_strlit("drop-atom");
            assert("drop-atom"@.len() != "remove-atom"@.len());
        } else if j == 7 {
            reveal_strlit("map-atom");
            assert("map-atom"@.len() != "remove-atom"@.len());
        } else if j == 8 {
            reveal_strlit("filter-atom");
            assert("filter-atom"@[0] != "remove-atom"@[0]);
        } else if j == 9 {
            reveal_strlit("foldl-atom");
            assert("foldl-atom"@.len() != "remove-atom"@.len());
        } else if j == 10 {
            reveal_strlit("sort-tuple");
            assert("sort-tuple"@.len() != "remove-atom"@.len());
        }
    }
    lemma_last_named_none(signature_part7(), "remove-atom"@);
    assert forall|j: int| 0 <= j < signature_part8().len() implies #[trigger] signature_part8()[j].name != "remove-atom"@ by {
        if j == 0 {
            reveal_strlit("best-candidate");
            assert("best-candidate"@.len() != "remove-atom"@.len());
        } else if j == 1 {
            reveal_strlit("unique-atom");
            assert("unique-atom"@[0] != "remove-atom"@[0]);
        } else if j == 2 {
            reveal_strlit("union-atom");
            assert("union-atom"@.len() != "remove-atom"@.len());
        } else if j == 3 {
            reveal_strlit("intersection-atom");
            assert("intersection-atom"@.len() != "remove-atom"@.len());
        } else if j == 4 {
            reveal_strlit("subtraction-atom");
            assert("subtraction-atom"@.len() != "remove-atom"@.len());
        } else if j == 5 {
            reveal_strlit("superpose");
            assert("superpose"@.len() != "remove-atom"@.len());
        } else if j == 6 {
            reveal_strlit("amb");
            assert("amb"@.len() != "remove-atom"@.len());
        } else if j == 7 {
            reveal_strlit("guard");
            assert("guard"@.len() != "remove-atom"@.len());
        } else if j == 8 {
            reveal_strlit("commit");
            assert("commit"@.len() != "remove-atom"@.len());
        } else if j == 9 {
            reveal_strlit("backtrack");
            assert("backtrack"@.len() != "remove-atom"@.len());
        } else if j == 10 {
            reveal_strlit("quote");
            assert("quote"@.len() != "remove-atom"@.len());
        }
    }
    lemma_last_named_none(signature_part8(), "remove-atom"@);
    assert forall|j: int| 0 <= j < signature_part9().len() implies #[trigger] signature_part9()[j].name != "remove-atom"@ by {
        if j == 0 {
            reveal_strlit("unquote");
            assert("unquote"@.len() != "remove-atom"@.len());
        } else if j == 1 {
            reveal_strlit("eval");
            assert("eval"@.len() != "remove-atom"@.len());
        } else if j == 2 {
            reveal_strlit("!");
            assert("!"@.len() != "remove-atom"@.len());
        } else if j == 3 {
            reveal_strlit("sealed");
            assert("sealed"@.len() != "remove-atom"@.len());
        } else if j == 4 {
            reveal_strlit("atom-subst");
            assert("atom-subst"@.len() != "remove-atom"@.len());
        } else if j == 5 {
            reveal_strlit("nop");
            assert("nop"@.len() != "remove-atom"@.len());
        } else if j == 6 {
            reveal_strlit("get-type");
            assert("get-type"@.len() != "remove-atom"@.len());
        } else if j == 7 {
            reveal_strlit("check-type");
            assert("check-type"@.len() != "remove-atom"@.len());
        } else if j == 8 {
            reveal_strlit("get-metatype");
            assert("get-metatype"@.len() != "remove-atom"@.len());
        } else if j == 9 {
            reveal_strlit("validate-atom");
            assert("validate-atom"@.len() != "remove-atom"@.len());
        } else if j == 10 {
            reveal_strlit("get-type-space");
            assert("get-type-space"@.len() != "remove-atom"@.len());
        }
    }
    lemma_last_named_none(signature_part9(), "remove-atom"@);
    assert forall|j: int| 0 <= j < signature_part10().len() implies #[trigger] signature_part10()[j].name != "remove-atom"@ by {
        if j == 0 {
            reveal_strlit("is-function");
            assert("is-function"@[0] != "remove-atom"@[0]);
        } else if j == 1 {
            reveal_strlit("type-cast");
            assert("type-cast"@.len() != "remove-atom"@.len());
        } else if j == 2 {
            reveal_strlit("metta");
            assert("metta"@.len() != "remove-atom"@.len());
        } else if j == 3 {
            reveal_strlit("match-type-or");
            assert("match-type-or"@.len() != "remove-atom"@.len());
        } else if j == 4 {
            reveal_strlit("first-from-pair");
            assert("first-from-pair"@.len() != "remove-atom"@.len());
        } else if j == 5 {
            reveal_strlit(":<");
            assert(":<"@.len() != "remove-atom"@.len());
        } else if j == 6 {
            reveal_strlit("Error");
            assert("Error"@.len() != "remove-atom"@.len());
        } else if j == 7 {
            reveal_strlit("error");
            assert("error"@.len() != "remove-atom"@.len());
        } else if j == 8 {
            reveal_strlit("is-error");
            assert("is-error"@.len() != "remove-atom"@.len());
        } else if j == 9 {
            reveal_strlit("catch");
            assert("catch"@.len() != "remove-atom"@.len());
        } else if j == 10 {
            reveal_strlit("new-state");
            assert("new-state"@.len() != "remove-atom"@.len());
        }
    }
    lemma_last_named_none(signature_part10(), "remove-atom"@);
    assert forall|j: int| 0 <= j < signature_part11().len() implies #[trigger] signature_part11()[j].name != "remove-atom"@ by {
        if j == 0 {
            reveal_strlit("get-state");
            assert("get-state"@.len() != "remove-atom"@.len());
        } else if j == 1 {
            reveal_strlit("change-state!");
            assert("change-state!"@.len() != "remove-atom"@.len());
        } else if j == 2 {
            reveal_strlit("println!");
            assert("println!"@.len() != "remove-atom"@.len());
        } else if j == 3 {
            reveal_strlit("trace!");
            assert("trace!"@.len() != "remove-atom"@.len());
        } else if j == 4 {
            reveal_strlit("repr");
            assert("repr"@.len() != "remove-atom"@.len());
        } else if j == 5 {
            reveal_strlit("format-args");
            assert("format-args"@[0] != "remove-atom"@[0]);
        } else if j == 6 {
            reveal_strlit("=alpha");
            assert("=alpha"@.len() != "remove-atom"@.len());
        } else if j == 7 {
            reveal_strlit("include");
            assert("include"@.len() != "remove-atom"@.len());
        } else if j == 8 {
            reveal_strlit("import!");
            assert("import!"@.len() != "remove-atom"@.len());
        } else if j == 9 {
            reveal_strlit("bind!");
            assert("bind!"@.len() != "remove-atom"@.len());
        } else if j == 10 {
            reveal_strlit("mod-space!");
            assert("mod-space!"@.len() != "remove-atom"@.len());
        }
    }
    lemma_last_named_none(signature_part11(), "remove-atom"@);
    assert forall|j: int| 0 <= j < signature_part12().len() implies #[trigger] signature_part12()[j].name != "remove-atom"@ by {
        if j == 0 {
            reveal_strlit("print-mods!");
            assert("print-mods!"@[0] != "remove-atom"@[0]);
        } else if j == 1 {
            reveal_strlit("pragma!");
            assert("pragma!"@.len() != "remove-atom"@.len());
        } else if j == 2 {
            reveal_strlit("new-memo");
            assert("new-memo"@.len() != "remove-atom"@.len());
        } else if j == 3 {
            reveal_strlit("memo");
            assert("memo"@.len() != "remove-atom"@.len());
        } else if j == 4 {
            reveal_strlit("memo-first");
            assert("memo-first"@.len() != "remove-atom"@.len());
        } else if j == 5 {
            reveal_strlit("clear-memo!");
            assert("clear-memo!"@[0] != "remove-atom"@[0]);
        } else if j == 6 {
            reveal_strlit("memo-stats");
            assert("memo-stats"@.len() != "remove-atom"@.len());
        } else if j == 7 {
            reveal_strlit("assertEqual");
            assert("assertEqual"@[0] != "remove-atom"@[0]);
        } else if j == 8 {
            reveal_strlit("assertEqualMsg");
            assert("assertEqualMsg"@.len() != "remove-atom"@.len());
        } else if j == 9 {
            reveal_strlit("assertAlphaEqual");
            assert("assertAlphaEqual"@.len() != "remove-atom"@.len());
        } else if j == 10 {
            reveal_strlit("assertAlphaEqualMsg");
            assert("assertAlphaEqualMsg"@.len() != "remove-atom"@.len());
        }
    }
    lemma_last_named_none(signature_part12(), "remove-atom"@);
    assert forall|j: int| 0 <= j < signature_part13().len() implies #[trigger] signature_part13()[j].name != "remove-atom"@ by {
        if j == 0 {
            reveal_strlit("assertEqualToResult");
            assert("assertEqualToResult"@.len() != "remove-atom"@.len());
        } else if j == 1 {
            reveal_strlit("assertEqualToResultMsg");
            assert("assertEqualToResultMsg"@.len() != "remove-atom"@.len());
        } else if j == 2 {
            reveal_strlit("assertAlphaEqualToResult");
            assert("assertAlphaEqualToResult"@.len() != "remove-atom"@.len());
        } else if j == 3 {
            reveal_strlit("assertAlphaEqualToResultMsg");
            assert("assertAlphaEqualToResultMsg"@.len() != "remove-atom"@.len());
        }
    }
    lemma_last_named_none(signature_part13(), "remove-atom"@);
    lemma_found_base(5, "remove-atom"@, 6);
    lemma_found_step(6, "remove-atom"@, signature_prefix(5).len() - signature_part(5).len() + 6);
    lemma_found_step(7, "remove-atom"@, signature_prefix(5).len() - signature_part(5).len() + 6);
    lemma_found_step(8, "remove-atom"@, signature_prefix(5).len() - signature_part(5).len() + 6);
    lemma_found_step(9, "remove-atom"@, signature_prefix(5).len() - signature_part(5).len() + 6);
    lemma_found_step(10, "remove-atom"@, signature_prefix(5).len() - signature_part(5).len() + 6);
    lemma_found_step(11, "remove-atom"@, signature_prefix(5).len() - signature_part(5).len() + 6);
    lemma_found_step(12, "remove-atom"@, signature_prefix(5).len() - signature_part(5).len() + 6);
    lemma_found_step(13, "remove-atom"@, signature_prefix(5).len() - signature_part(5).len() + 6);
    lemma_table_prefix();
}

/// Every binary operation that the compiler emits is a registered
/// built-in that takes exactly two arguments: a lookup of its name finds a
/// signature under that name with both arity bounds two.
pub proof fn lemma_binary_op_signature(op: BinaryOp)
    ensures
        signature_of(binary_name(op)) is Some,
        signature_of(binary_name(op))->0.name == binary_name(op),
        signature_of(binary_name(op))->0.min_arity == 2,
        signature_of(binary_name(op))->0.max_arity == 2,
{
    match op {
        BinaryOp::Add => lemma_registered_add(),
        BinaryOp::Sub => lemma_registered_sub(),
        BinaryOp::Mul => lemma_registered_mul(),
        BinaryOp::Div => lemma_registered_div(),
        BinaryOp::Mod => lemma_registered_rem(),
        BinaryOp::Pow => lemma_registered_pow(),
        BinaryOp::FloorDiv => lemma_registered_floor_div(),
        BinaryOp::Log => lemma_registered_log_math(),
        BinaryOp::Lt => lemma_registered_lt(),
        BinaryOp::Le => lemma_registered_le(),
        BinaryOp::Gt => lemma_registered_gt(),
        BinaryOp::Ge => lemma_registered_ge(),
        BinaryOp::Eq => lemma_registered_eq(),
        BinaryOp::Ne => lemma_registered_ne(),
        BinaryOp::And => lemma_registered_and(),
        BinaryOp::Or => lemma_registered_or(),
        BinaryOp::Xor => lemma_registered_xor(),
        BinaryOp::IndexAtom => lemma_registered_index_atom(),
        BinaryOp::CheckType => lemma_registered_check_type(),
        BinaryOp::ConsAtom => lemma_registered_cons_atom(),
        BinaryOp::SpaceAdd => lemma_registered_add_atom(),
        BinaryOp::SpaceRemove => lemma_registered_remove_atom(),
    }
}

/// A name is a registered built-in exactly when a lookup of it finds a
/// signature.
pub proof fn lemma_builtin_iff_signature(name: Seq<char>)
    ensures
        has_name(signature_table(), name) == signature_of(name) is Some,
{
    lemma_last_named(signature_table(), name);
}

/// The registry lists one hundred and forty-seven built-ins.
pub proof fn lemma_registry_size()
    ensures
        signature_table().len() == 147,
{
}

/// Get the signature of a built-in operation by name.
pub fn get_signature(name: &str) -> (r: Option<BuiltinSignature>)
    ensures
        r is Some == has_name(signature_table(), name@),
        r matches Some(s) ==> Some(s.view()) == signature_of(name@),
{
    let mut table = builtin_signatures();
    let ghost t = sigs_view(table@);
    proof {
        lemma_last_named(t, name@);
    }
    let mut i = table.len();
    assert(t.take(i as int) =~= t);
    while i > 0
        invariant
            i <= table@.len(),
            t == sigs_view(table@),
            t == signature_table(),
            last_named(t, name@) == last_named(t.take(i as int), name@),
        decreases i,
    {
        assert(t.take(i as int).drop_last() =~= t.take(i - 1));
        assert(t.take(i as int).last() == table@[i - 1].view());
        if str_eq(table[i - 1].name, name) {
            let s = table.remove(i - 1);
            return Some(s);
        }
        i = i - 1;
    }
    None
}

/// Whether `name` is a known built-in operation.
pub fn is_builtin(name: &str) -> (r: bool)
    ensures
        r == has_name(signature_table(), name@),
{
    get_signature(name).is_some()
}

/// The argument types of a function type.
pub fn get_arg_types(sig: &TypeExpr) -> (r: Option<&[TypeExpr]>)
    ensures
        r is Some == (sig.view() is Arrow),
        r matches Some(args) ==> types_view(args@) == sig.view()->Arrow_0,
{
    match sig {
        TypeExpr::Arrow(args, ret) => {
            proof {
                lemma_arrow_view(sig, args, ret);
            }
            Some(args.as_slice())
        },
        _ => None,
    }
}

/// The return type of a function type.
pub fn get_return_type(sig: &TypeExpr) -> (r: Option<&TypeExpr>)
    ensures
        r is Some == (sig.view() is Arrow),
        r matches Some(ret) ==> ret.view() == *sig.view()->Arrow_1,
{
    match sig {
        TypeExpr::Arrow(args, ret) => {
            proof {
                lemma_arrow_view(sig, args, ret);
            }
            Some(&**ret)
        },
        _ => None,
    }
}

/// The expected type of the argument at `position`, if the signature has one.
pub fn get_expected_type_at_position(sig: &BuiltinSignature, position: usize) -> (r: Option<&TypeExpr>)
    ensures
        r is Some == (sig.type_sig.view() is Arrow && position < sig.type_sig.view()->Arrow_0.len()),
        r matches Some(t) ==> t.view() == sig.type_sig.view()->Arrow_0[position as int],
{
    match get_arg_types(&sig.type_sig) {
        Some(args) => {
            if position < args.len() {
                assert(types_view(args@)[position as int] == args@[position as int].view());
                Some(&args[position])
            } else {
                None
            }
        },
        None => None,
    }
}

/// The name of the value type that a type expression constrains a result to,
/// for concrete value types only.
pub fn type_expr_to_expected_type_name(te: &TypeExpr) -> (r: Option<&'static str>)
    ensures
        r == (match te.view() {
            TypeModel::Number => Some("Number"),
            TypeModel::Bool => Some("Bool"),
            TypeModel::String => Some("String"),
            _ => None::<&'static str>,
        }),
{
    match te {
        TypeExpr::Number => Some("Number"),
        TypeExpr::Bool => Some("Bool"),
        TypeExpr::String => Some("String"),
        _ => None,
    }
}

/// The names of all built-ins, in registry order.
pub fn builtin_names() -> (r: Vec<&'static str>)
    ensures
        r@.len() == signature_table().len(),
        forall|i: int| 0 <= i < r@.len() ==> #[trigger] r@[i]@ == signature_table()[i].name,
{
    let table = builtin_signatures();
    let ghost t = sigs_view(table@);
    let mut names: Vec<&'static str> = Vec::new();
    let mut i: usize = 0;
    while i < table.len()
        invariant
            t == sigs_view(table@),
            t == signature_table(),
            i <= table@.len(),
            names@.len() == i,
            forall|j: int| 0 <= j < i ==> #[trigger] names@[j]@ == t[j].name,
        decreases table@.len() - i,
    {
        names.push(table[i].name);
        assert(t[i as int] == table@[i as int].view());
        i = i + 1;
    }
    names
}

} // verus!
