//! S-expression values that the compiler consumes and stores in constant pools.

use vstd::prelude::*;
use vstd::string::StringExecFns;
use vstd::std_specs::cmp::PartialEqSpecImpl;

use crate::text::{push_decimal, push_signed_decimal, decimal, signed_decimal};

verus! {

/// Mathematical model of a [`MettaValue`].
pub ghost enum Val {
    Unit,
    Bool(bool),
    Long(i64),
    Float(u64),
    Str(Seq<char>),
    Atom(Seq<char>),
    SExpr(Seq<Val>),
    Type(Box<Val>),
    Error(Seq<char>, Box<Val>),
    Conjunction(Seq<Val>),
    Empty,
}

/// A MeTTa value.
///
/// Floats are carried by their IEEE-754 bit pattern; the library never
/// computes with them.
#[derive(Debug)]
pub enum MettaValue {
    Unit,
    Bool(bool),
    Long(i64),
    Float(u64),
    String(String),
    Atom(String),
    SExpr(Vec<MettaValue>),
    Type(Box<MettaValue>),
    Error(String, Box<MettaValue>),
    Conjunction(Vec<MettaValue>),
    Empty,
}

/// The model of a sequence of values, element by element.
pub open spec fn seq_view(items: Seq<MettaValue>) -> Seq<Val> {
    Seq::new(items.len(), |i: int| items[i]@)
}

impl MettaValue {
    /// The model of this value.
    pub open spec fn view(&self) -> Val
        decreases self,
    {
        match self {
            MettaValue::Unit => Val::Unit,
            MettaValue::Bool(b) => Val::Bool(*b),
            MettaValue::Long(n) => Val::Long(*n),
            MettaValue::Float(f) => Val::Float(*f),
            MettaValue::String(s) => Val::Str(s@),
            MettaValue::Atom(s) => Val::Atom(s@),
            MettaValue::SExpr(items) => if items.len() == 0 {
                Val::Unit
            } else {
                Val::SExpr(
                Seq::new(
                    items.len() as nat,
                    |i: int|
                        if 0 <= i < items.len() {
                            items@[i].view()
                        } else {
                            Val::Unit
                        },
                ),
            )
            },
            MettaValue::Type(t) => Val::Type(Box::new(t.view())),
            MettaValue::Error(m, d) => Val::Error(m@, Box::new(d.view())),
            MettaValue::Conjunction(items) => Val::Conjunction(
                Seq::new(
                    items.len() as nat,
                    |i: int|
                        if 0 <= i < items.len() {
                            items@[i].view()
                        } else {
                            Val::Unit
                        },
                ),
            ),
            MettaValue::Empty => Val::Empty,
        }
    }
}

/// The model of an S-expression: its items, or the unit value when it has
/// none (the empty S-expression is the unit value).
pub proof fn lemma_sexpr_view(v: &MettaValue, items: &Vec<MettaValue>)
    requires
        *v == MettaValue::SExpr(*items),
    ensures
        items@.len() > 0 ==> v@ == Val::SExpr(seq_view(items@)),
        items@.len() == 0 ==> v@ == Val::Unit,
        seq_view(items@).len() == items@.len(),
        forall|i: int| 0 <= i < items@.len() ==> #[trigger] seq_view(items@)[i] == items@[i]@,
{
    if items@.len() > 0 {
        assert(v@->SExpr_0 =~= seq_view(items@));
    }
}

/// The model of the items of a conjunction.
pub proof fn lemma_conjunction_view(v: &MettaValue, items: &Vec<MettaValue>)
    requires
        *v == MettaValue::Conjunction(*items),
    ensures
        v@ == Val::Conjunction(seq_view(items@)),
        seq_view(items@).len() == items@.len(),
        forall|i: int| 0 <= i < items@.len() ==> #[trigger] seq_view(items@)[i] == items@[i]@,
{
    assert(v@->Conjunction_0 =~= seq_view(items@));
}

/// Structural equality of two sequences of values.
fn items_equal(xs: &Vec<MettaValue>, ys: &Vec<MettaValue>, Ghost(parent): Ghost<&MettaValue>) -> (r: bool)
    requires
        *parent == MettaValue::SExpr(*xs) || *parent == MettaValue::Conjunction(*xs),
    ensures
        r == (seq_view(xs@) == seq_view(ys@)),
    decreases parent, 0nat,
{
    if xs.len() != ys.len() {
        assert(seq_view(xs@).len() != seq_view(ys@).len());
        return false;
    }
    let mut i: usize = 0;
    while i < xs.len()
        invariant
            xs.len() == ys.len(),
            *parent == MettaValue::SExpr(*xs) || *parent == MettaValue::Conjunction(*xs),
            0 <= i <= xs.len(),
            forall|j: int| 0 <= j < i ==> xs@[j]@ == ys@[j]@,
        decreases xs.len() - i,
    {
        proof {
            vstd::std_specs::vec::axiom_vec_index_decreases(*xs, i as int);
            if *parent == MettaValue::SExpr(*xs) {
                assert(decreases_to!(*parent => (*parent)->SExpr_0));
            } else {
                assert(decreases_to!(*parent => (*parent)->Conjunction_0));
            }
        }
        if !values_equal(&xs[i], &ys[i]) {
            assert(seq_view(xs@)[i as int] != seq_view(ys@)[i as int]);
            return false;
        }
        i = i + 1;
    }
    assert(seq_view(xs@) =~= seq_view(ys@));
    true
}

/// Structural equality of two values (floats compared by bit pattern).
pub fn values_equal(a: &MettaValue, b: &MettaValue) -> (r: bool)
    ensures
        r == (a@ == b@),
    decreases a, 1nat,
{
    match (a, b) {
        (MettaValue::Unit, MettaValue::Unit) => true,
        (MettaValue::Unit, MettaValue::SExpr(ys)) => {
            proof {
                lemma_sexpr_view(b, ys);
            }
            ys.len() == 0
        },
        (MettaValue::SExpr(xs), MettaValue::Unit) => {
            proof {
                lemma_sexpr_view(a, xs);
            }
            xs.len() == 0
        },
        (MettaValue::Empty, MettaValue::Empty) => true,
        (MettaValue::Bool(x), MettaValue::Bool(y)) => *x == *y,
        (MettaValue::Long(x), MettaValue::Long(y)) => *x == *y,
        (MettaValue::Float(x), MettaValue::Float(y)) => *x == *y,
        (MettaValue::String(x), MettaValue::String(y)) => {
            let r = *x == *y;
            r
        },
        (MettaValue::Atom(x), MettaValue::Atom(y)) => {
            let r = *x == *y;
            r
        },
        (MettaValue::SExpr(xs), MettaValue::SExpr(ys)) => {
            proof {
                lemma_sexpr_view(a, xs);
                lemma_sexpr_view(b, ys);
            }
            if xs.len() == 0 || ys.len() == 0 {
                return xs.len() == ys.len();
            }
            items_equal(xs, ys, Ghost(a))
        },
        (MettaValue::Conjunction(xs), MettaValue::Conjunction(ys)) => {
            proof {
                lemma_conjunction_view(a, xs);
                lemma_conjunction_view(b, ys);
            }
            items_equal(xs, ys, Ghost(a))
        },
        (MettaValue::Type(x), MettaValue::Type(y)) => values_equal(x, y),
        (MettaValue::Error(m1, d1), MettaValue::Error(m2, d2)) => {
            let same_msg = *m1 == *m2;
            if !same_msg {
                return false;
            }
            values_equal(d1, d2)
        },
        _ => false,
    }
}

/// Copies a sequence of values element by element.
fn clone_items(xs: &Vec<MettaValue>, Ghost(parent): Ghost<&MettaValue>) -> (r: Vec<MettaValue>)
    requires
        *parent == MettaValue::SExpr(*xs) || *parent == MettaValue::Conjunction(*xs),
    ensures
        seq_view(r@) == seq_view(xs@),
        r@.len() == xs@.len(),
    decreases parent, 0nat,
{
    let mut out: Vec<MettaValue> = Vec::new();
    let mut i: usize = 0;
    while i < xs.len()
        invariant
            *parent == MettaValue::SExpr(*xs) || *parent == MettaValue::Conjunction(*xs),
            0 <= i <= xs.len(),
            out@.len() == i,
            forall|j: int| 0 <= j < i ==> out@[j]@ == xs@[j]@,
        decreases xs.len() - i,
    {
        proof {
            vstd::std_specs::vec::axiom_vec_index_decreases(*xs, i as int);
            if *parent == MettaValue::SExpr(*xs) {
                assert(decreases_to!(*parent => (*parent)->SExpr_0));
            } else {
                assert(decreases_to!(*parent => (*parent)->Conjunction_0));
            }
        }
        let c = xs[i].deep_clone();
        out.push(c);
        i = i + 1;
    }
    assert(seq_view(out@) =~= seq_view(xs@));
    out
}

impl MettaValue {
    /// A copy of this value with the same model.
    pub fn deep_clone(&self) -> (r: MettaValue)
        ensures
            r@ == self@,
        decreases self, 1nat,
    {
        match self {
            MettaValue::Unit => MettaValue::Unit,
            MettaValue::Empty => MettaValue::Empty,
            MettaValue::Bool(b) => MettaValue::Bool(*b),
            MettaValue::Long(n) => MettaValue::Long(*n),
            MettaValue::Float(f) => MettaValue::Float(*f),
            MettaValue::String(s) => MettaValue::String(s.clone()),
            MettaValue::Atom(s) => MettaValue::Atom(s.clone()),
            MettaValue::SExpr(xs) => {
                let ys = clone_items(xs, Ghost(self));
                let r = MettaValue::SExpr(ys);
                proof {
                    lemma_sexpr_view(self, xs);
                    lemma_sexpr_view(&r, &ys);
                }
                r
            },
            MettaValue::Conjunction(xs) => {
                let ys = clone_items(xs, Ghost(self));
                let r = MettaValue::Conjunction(ys);
                proof {
                    lemma_conjunction_view(self, xs);
                    lemma_conjunction_view(&r, &ys);
                }
                r
            },
            MettaValue::Type(t) => MettaValue::Type(Box::new(t.deep_clone())),
            MettaValue::Error(m, d) => MettaValue::Error(m.clone(), Box::new(d.deep_clone())),
        }
    }
}


/// Readable text of a value, as the disassembler shows constants.
pub open spec fn debug_repr(v: Val) -> Seq<char>
    decreases v, 1nat,
{
    match v {
        Val::Unit => "Unit"@,
        Val::Empty => "Empty"@,
        Val::Bool(b) => if b { "Bool(true)"@ } else { "Bool(false)"@ },
        Val::Long(n) => "Long("@ + signed_decimal(n as int) + ")"@,
        Val::Float(f) => "Float(bits "@ + decimal(f as nat) + ")"@,
        Val::Str(s) => "String(\""@ + s + "\")"@,
        Val::Atom(s) => "Atom(\""@ + s + "\")"@,
        Val::SExpr(items) => "SExpr(["@ + debug_list(items) + "])"@,
        Val::Type(t) => "Type("@ + debug_repr(*t) + ")"@,
        Val::Error(m, d) => "Error(\""@ + m + "\", "@ + debug_repr(*d) + ")"@,
        Val::Conjunction(items) => "Conjunction(["@ + debug_list(items) + "])"@,
    }
}

/// Readable text of a list of values, separated by commas.
pub open spec fn debug_list(items: Seq<Val>) -> Seq<char>
    decreases items, 0nat,
{
    if items.len() == 0 {
        Seq::empty()
    } else if items.len() == 1 {
        debug_repr(items[0])
    } else {
        debug_list(items.drop_last()) + ", "@ + debug_repr(items.last())
    }
}

fn push_debug_items(out: &mut String, xs: &Vec<MettaValue>, Ghost(parent): Ghost<&MettaValue>)
    requires
        *parent == MettaValue::SExpr(*xs) || *parent == MettaValue::Conjunction(*xs),
    ensures
        final(out)@ == old(out)@ + debug_list(seq_view(xs@)),
    decreases parent, 0nat,
{
    let mut i: usize = 0;
    while i < xs.len()
        invariant
            *parent == MettaValue::SExpr(*xs) || *parent == MettaValue::Conjunction(*xs),
            0 <= i <= xs.len(),
            out@ == old(out)@ + debug_list(seq_view(xs@).take(i as int)),
        decreases xs.len() - i,
    {
        proof {
            vstd::std_specs::vec::axiom_vec_index_decreases(*xs, i as int);
            if *parent == MettaValue::SExpr(*xs) {
                assert(decreases_to!(*parent => (*parent)->SExpr_0));
            } else {
                assert(decreases_to!(*parent => (*parent)->Conjunction_0));
            }
        }
        let ghost before = out@;
        if i > 0 {
            out.append(", ");
        }
        push_debug(out, &xs[i]);
        proof {
            let t = seq_view(xs@).take(i + 1);
            assert(t.drop_last() =~= seq_view(xs@).take(i as int));
            assert(t.last() == xs@[i as int]@);
            if i == 0 {
                assert(t.len() == 1);
                assert(t[0] == xs@[0]@);
            }
        }
        i = i + 1;
        assert(out@ =~= old(out)@ + debug_list(seq_view(xs@).take(i as int)));
    }
    assert(seq_view(xs@).take(xs.len() as int) =~= seq_view(xs@));
}

/// Appends the readable text of a value.
pub fn push_debug(out: &mut String, v: &MettaValue)
    ensures
        final(out)@ == old(out)@ + debug_repr(v@),
    decreases v, 1nat,
{
    match v {
        MettaValue::Unit => out.append("Unit"),
        MettaValue::Empty => out.append("Empty"),
        MettaValue::Bool(b) => {
            if *b {
                out.append("Bool(true)")
            } else {
                out.append("Bool(false)")
            }
        },
        MettaValue::Long(n) => {
            out.append("Long(");
            push_signed_decimal(out, *n);
            out.append(")");
            assert(out@ =~= old(out)@ + debug_repr(v@));
        },
        MettaValue::Float(f) => {
            out.append("Float(bits ");
            push_decimal(out, *f);
            out.append(")");
            assert(out@ =~= old(out)@ + debug_repr(v@));
        },
        MettaValue::String(s) => {
            out.append("String(\"");
            out.append(s.as_str());
            out.append("\")");
            assert(out@ =~= old(out)@ + debug_repr(v@));
        },
        MettaValue::Atom(s) => {
            out.append("Atom(\"");
            out.append(s.as_str());
            out.append("\")");
            assert(out@ =~= old(out)@ + debug_repr(v@));
        },
        MettaValue::SExpr(xs) => {
            proof { lemma_sexpr_view(v, xs); }
            if xs.len() == 0 {
                out.append("Unit");
                return;
            }
            out.append("SExpr([");
            push_debug_items(out, xs, Ghost(v));
            out.append("])");
            assert(out@ =~= old(out)@ + debug_repr(v@));
        },
        MettaValue::Conjunction(xs) => {
            proof { lemma_conjunction_view(v, xs); }
            out.append("Conjunction([");
            push_debug_items(out, xs, Ghost(v));
            out.append("])");
            assert(out@ =~= old(out)@ + debug_repr(v@));
        },
        MettaValue::Type(t) => {
            out.append("Type(");
            push_debug(out, t);
            out.append(")");
            assert(out@ =~= old(out)@ + debug_repr(v@));
        },
        MettaValue::Error(m, d) => {
            out.append("Error(\"");
            out.append(m.as_str());
            out.append("\", ");
            push_debug(out, d);
            out.append(")");
            assert(out@ =~= old(out)@ + debug_repr(v@));
        },
    }
}

impl Clone for MettaValue {
    fn clone(&self) -> (r: Self)
        ensures
            r@ == self@,
    {
        self.deep_clone()
    }
}

impl PartialEq for MettaValue {
    fn eq(&self, other: &Self) -> (r: bool) {
        values_equal(self, other)
    }
}

impl PartialEqSpecImpl for MettaValue {
    open spec fn obeys_eq_spec() -> bool {
        true
    }

    open spec fn eq_spec(&self, other: &MettaValue) -> bool {
        self@ == other@
    }
}

} // verus!
