//! Dynamically typed field values.
//!
//! The remote schema is not known statically, so a record's field holds a
//! tagged variant: null, boolean, integer, string, list, or nested object.
//! Contracts speak about `ValueView`, the mathematical shape of a value,
//! where strings are character sequences and collections are `Seq`s.

use vstd::prelude::*;

verus! {

broadcast use vstd::std_specs::vec::axiom_vec_decreases_to_view, vstd::seq::axiom_seq_index_decreases, vstd::seq::axiom_seq_subrange_decreases;

/// One dynamically typed field value.
#[derive(Debug, PartialEq)]
pub enum FieldValue {
    /// An explicit null.
    Null,
    /// A boolean.
    Bool(bool),
    /// An integral number.
    Int(i64),
    /// A text value.
    Str(String),
    /// An ordered list of values.
    List(Vec<FieldValue>),
    /// A nested object: field name/value pairs in insertion order.
    Object(Vec<(String, FieldValue)>),
}

/// The mathematical shape of a `FieldValue`.
pub enum ValueView {
    Null,
    Bool(bool),
    Int(int),
    Str(Seq<char>),
    List(Seq<ValueView>),
    Object(Seq<(Seq<char>, ValueView)>),
}

/// The view of a `FieldValue`: strings become character sequences,
/// collections become sequences of views.
pub open spec fn value_view(v: FieldValue) -> ValueView
    decreases v,
{
    match v {
        FieldValue::Null => ValueView::Null,
        FieldValue::Bool(b) => ValueView::Bool(b),
        FieldValue::Int(n) => ValueView::Int(n as int),
        FieldValue::Str(s) => ValueView::Str(s@),
        FieldValue::List(vs) => {
            proof {
                assert(decreases_to!(v => v->List_0));
                assert(decreases_to!(vs => vs@));
            }
            ValueView::List(values_view(vs@))
        },
        FieldValue::Object(es) => {
            proof {
                assert(decreases_to!(v => v->Object_0));
                assert(decreases_to!(es => es@));
            }
            ValueView::Object(entries_view(es@))
        },
    }
}

/// The views of a sequence of values, elementwise.
pub open spec fn values_view(s: Seq<FieldValue>) -> Seq<ValueView>
    decreases s,
{
    if s.len() == 0 {
        Seq::empty()
    } else {
        proof {
            assert(s.drop_last() == s.subrange(0, s.len() - 1));
            assert(decreases_to!(s => s.subrange(0, s.len() - 1)));
            assert(decreases_to!(s => s[s.len() - 1]));
        }
        values_view(s.drop_last()).push(value_view(s.last()))
    }
}

/// The views of a sequence of name/value entries, elementwise.
pub open spec fn entries_view(s: Seq<(String, FieldValue)>) -> Seq<(Seq<char>, ValueView)>
    decreases s,
{
    if s.len() == 0 {
        Seq::empty()
    } else {
        proof {
            assert(s.drop_last() == s.subrange(0, s.len() - 1));
            assert(decreases_to!(s => s.subrange(0, s.len() - 1)));
            assert(decreases_to!(s => s[s.len() - 1]));
            assert(decreases_to!(s[s.len() - 1] => s[s.len() - 1].1));
        }
        entries_view(s.drop_last()).push((s.last().0@, value_view(s.last().1)))
    }
}

/// `values_view` maps the sequence elementwise.
pub broadcast proof fn lemma_values_view_index(s: Seq<FieldValue>)
    ensures
        (#[trigger] values_view(s)).len() == s.len(),
        forall|i: int| 0 <= i < s.len() ==> values_view(s)[i] == value_view(s[i]),
    decreases s.len(),
{
    if s.len() > 0 {
        lemma_values_view_index(s.drop_last());
    }
}

/// `entries_view` maps the sequence elementwise.
pub broadcast proof fn lemma_entries_view_index(s: Seq<(String, FieldValue)>)
    ensures
        (#[trigger] entries_view(s)).len() == s.len(),
        forall|i: int| 0 <= i < s.len() ==> entries_view(s)[i] == (s[i].0@, value_view(s[i].1)),
    decreases s.len(),
{
    if s.len() > 0 {
        lemma_entries_view_index(s.drop_last());
    }
}

impl View for FieldValue {
    type V = ValueView;

    open spec fn view(&self) -> ValueView {
        value_view(*self)
    }
}

/// Compare two string slices by their character sequences.
pub fn str_eq(a: &str, b: &str) -> (r: bool)
    ensures
        r == (a@ == b@),
{
    let x = a.to_owned();
    let y = b.to_owned();
    x == y
}

impl FieldValue {
    /// Whether this value is the explicit null.
    pub fn is_null(&self) -> (r: bool)
        ensures
            r == (self@ == ValueView::Null),
    {
        match self {
            FieldValue::Null => true,
            _ => false,
        }
    }

    /// The text of this value, if it is a text value.
    pub fn as_str(&self) -> (r: Option<&String>)
        ensures
            match r {
                Some(s) => self@ == ValueView::Str(s@),
                None => forall|t: Seq<char>| self@ != ValueView::Str(t),
            },
    {
        match self {
            FieldValue::Str(s) => Some(s),
            _ => None,
        }
    }

    /// A deep copy whose view equals this value's view.
    pub fn duplicate(&self) -> (r: FieldValue)
        ensures
            r@ == self@,
        decreases *self,
    {
        broadcast use lemma_values_view_index, lemma_entries_view_index;

        match self {
            FieldValue::Null => FieldValue::Null,
            FieldValue::Bool(b) => FieldValue::Bool(*b),
            FieldValue::Int(n) => FieldValue::Int(*n),
            FieldValue::Str(s) => FieldValue::Str(s.clone()),
            FieldValue::List(vs) => {
                let mut out: Vec<FieldValue> = Vec::new();
                let mut i: usize = 0;
                while i < vs.len()
                    invariant
                        *self == FieldValue::List(*vs),
                        i <= vs@.len(),
                        out@.len() == i as int,
                        forall|j: int| 0 <= j < i as int ==> out@[j]@ == #[trigger] vs@[j]@,
                    decreases vs@.len() - i,
                {
                    proof {
                        assert(decreases_to!(*self => self->List_0));
                        assert(decreases_to!(*vs => vs@));
                        assert(decreases_to!(vs@ => vs@[i as int]));
                    }
                    let d = vs[i].duplicate();
                    out.push(d);
                    i = i + 1;
                }
                proof {
                    assert forall|k: int| 0 <= k < vs@.len() implies values_view(out@)[k]
                        == values_view(vs@)[k] by {
                        assert(out@[k]@ == vs@[k]@);
                    }
                    assert(values_view(out@) =~= values_view(vs@));
                }
                FieldValue::List(out)
            },
            FieldValue::Object(es) => {
                let mut out: Vec<(String, FieldValue)> = Vec::new();
                let mut i: usize = 0;
                while i < es.len()
                    invariant
                        *self == FieldValue::Object(*es),
                        i <= es@.len(),
                        out@.len() == i as int,
                        forall|j: int| 0 <= j < i as int ==> #[trigger] out@[j].0@ == es@[j].0@
                            && out@[j].1@ == es@[j].1@,
                    decreases es@.len() - i,
                {
                    proof {
                        assert(decreases_to!(*self => self->Object_0));
                        assert(decreases_to!(*es => es@));
                        assert(decreases_to!(es@ => es@[i as int]));
                        assert(decreases_to!(es@[i as int] => es@[i as int].1));
                    }
                    let k = es[i].0.clone();
                    let d = es[i].1.duplicate();
                    out.push((k, d));
                    i = i + 1;
                }
                proof {
                    assert forall|k: int| 0 <= k < es@.len() implies entries_view(out@)[k]
                        == entries_view(es@)[k] by {
                        assert(out@[k].0@ == es@[k].0@ && out@[k].1@ == es@[k].1@);
                    }
                    assert(entries_view(out@) =~= entries_view(es@));
                }
                FieldValue::Object(out)
            },
        }
    }
}

} // verus!
