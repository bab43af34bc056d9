//! The ordered field mapping of a record.
//!
//! Field names map to dynamically typed values. The mapping is an ordered
//! association list; `lookup` finds the first entry with a given name, and
//! `set_entry` describes what an insertion does to the entries.

use vstd::prelude::*;

use crate::value::FieldValue;
use crate::value::ValueView;
use crate::value::entries_view;
use crate::value::lemma_entries_view_index;
use crate::value::str_eq;

verus! {

/// The first value bound to `k` in `s`, if any.
pub open spec fn lookup(s: Seq<(Seq<char>, ValueView)>, k: Seq<char>) -> Option<ValueView>
    decreases s.len(),
{
    if s.len() == 0 {
        None
    } else if s[0].0 == k {
        Some(s[0].1)
    } else {
        lookup(s.drop_first(), k)
    }
}

/// Whether `s` binds `k`.
pub open spec fn has_key(s: Seq<(Seq<char>, ValueView)>, k: Seq<char>) -> bool {
    lookup(s, k) is Some
}

/// The index of the first entry bound to `k` (meaningful only when `has_key`).
pub open spec fn key_index(s: Seq<(Seq<char>, ValueView)>, k: Seq<char>) -> int
    decreases s.len(),
{
    if s.len() == 0 {
        0
    } else if s[0].0 == k {
        0
    } else {
        1 + key_index(s.drop_first(), k)
    }
}

/// What inserting `k -> v` does: replace the first entry bound to `k`,
/// or append a new entry when `k` is unbound.
pub open spec fn set_entry(
    s: Seq<(Seq<char>, ValueView)>,
    k: Seq<char>,
    v: ValueView,
) -> Seq<(Seq<char>, ValueView)> {
    if has_key(s, k) {
        s.update(key_index(s, k), (k, v))
    } else {
        s.push((k, v))
    }
}

/// When the first match for `k` sits at index `i`, `lookup` returns that
/// entry's value and `key_index` returns `i`.
pub proof fn lemma_lookup_at(s: Seq<(Seq<char>, ValueView)>, k: Seq<char>, i: int)
    requires
        0 <= i < s.len(),
        s[i].0 == k,
        forall|j: int| 0 <= j < i ==> #[trigger] s[j].0 != k,
    ensures
        lookup(s, k) == Some(s[i].1),
        key_index(s, k) == i,
    decreases i,
{
    if i > 0 {
        lemma_lookup_at(s.drop_first(), k, i - 1);
    }
}

/// When no entry is bound to `k`, `lookup` returns nothing.
pub proof fn lemma_lookup_none(s: Seq<(Seq<char>, ValueView)>, k: Seq<char>)
    requires
        forall|j: int| 0 <= j < s.len() ==> #[trigger] s[j].0 != k,
    ensures
        lookup(s, k) == None::<ValueView>,
    decreases s.len(),
{
    if s.len() > 0 {
        lemma_lookup_none(s.drop_first(), k);
    }
}

/// An ordered mapping from field names to values.
#[derive(Debug, PartialEq)]
pub struct FieldMap {
    entries: Vec<(String, FieldValue)>,
}

impl View for FieldMap {
    type V = Seq<(Seq<char>, ValueView)>;

    closed spec fn view(&self) -> Seq<(Seq<char>, ValueView)> {
        entries_view(self.entries@)
    }
}

impl FieldMap {
    /// An empty mapping.
    pub fn new() -> (r: FieldMap)
        ensures
            r@ == Seq::<(Seq<char>, ValueView)>::empty(),
    {
        let r = FieldMap { entries: Vec::new() };
        proof {
            broadcast use lemma_entries_view_index;

            assert(r@ =~= Seq::<(Seq<char>, ValueView)>::empty());
        }
        r
    }

    /// How many entries the mapping holds.
    pub fn len(&self) -> (n: usize)
        ensures
            n == self@.len(),
    {
        proof {
            broadcast use lemma_entries_view_index;

        }
        self.entries.len()
    }

    /// The entry at position `i`, in insertion order.
    pub fn entry_at(&self, i: usize) -> (r: &(String, FieldValue))
        requires
            i < self@.len(),
        ensures
            self@[i as int] == (r.0@, r.1@),
    {
        proof {
            broadcast use lemma_entries_view_index;

        }
        &self.entries[i]
    }

    /// The first value bound to `name`, if any.
    pub fn get(&self, name: &str) -> (r: Option<&FieldValue>)
        ensures
            match r {
                Some(v) => lookup(self@, name@) == Some(v@),
                None => lookup(self@, name@) == None::<ValueView>,
            },
    {
        proof {
            broadcast use lemma_entries_view_index;

        }
        let n = self.entries.len();
        let mut i: usize = 0;
        while i < n
            invariant
                n == self.entries@.len(),
                i <= n,
                forall|j: int| 0 <= j < i as int ==> #[trigger] self@[j].0 != name@,
            decreases n - i,
        {
            proof {
                broadcast use lemma_entries_view_index;

            }
            if str_eq(self.entries[i].0.as_str(), name) {
                proof {
                    lemma_lookup_at(self@, name@, i as int);
                }
                return Some(&self.entries[i].1);
            }
            i = i + 1;
        }
        proof {
            lemma_lookup_none(self@, name@);
        }
        None
    }

    /// Bind `name` to `value`: replace the first entry with that name, or
    /// append one.
    pub fn insert(&mut self, name: String, value: FieldValue)
        ensures
            final(self)@ == set_entry(old(self)@, name@, value@),
    {
        proof {
            broadcast use lemma_entries_view_index;

        }
        let n = self.entries.len();
        let mut i: usize = 0;
        while i < n
            invariant
                n == self.entries@.len(),
                i <= n,
                *self == *old(self),
                forall|j: int| 0 <= j < i as int ==> #[trigger] self@[j].0 != name@,
            decreases n - i,
        {
            proof {
                broadcast use lemma_entries_view_index;

            }
            if str_eq(self.entries[i].0.as_str(), name.as_str()) {
                proof {
                    lemma_lookup_at(self@, name@, i as int);
                }
                self.entries[i] = (name, value);
                proof {
                    broadcast use lemma_entries_view_index;

                    assert(self@ =~= set_entry(old(self)@, name@, value@));
                }
                return ;
            }
            i = i + 1;
        }
        proof {
            lemma_lookup_none(self@, name@);
        }
        self.entries.push((name, value));
        proof {
            broadcast use lemma_entries_view_index;

            assert(self@ =~= set_entry(old(self)@, name@, value@));
        }
    }

    /// A deep copy whose view equals this mapping's view.
    pub fn duplicate(&self) -> (r: FieldMap)
        ensures
            r@ == self@,
    {
        proof {
            broadcast use lemma_entries_view_index;

        }
        let n = self.entries.len();
        let mut out: Vec<(String, FieldValue)> = Vec::new();
        let mut i: usize = 0;
        while i < n
            invariant
                n == self.entries@.len(),
                i <= n,
                out@.len() == i as int,
                forall|j: int| 0 <= j < i as int ==> #[trigger] out@[j].0@ == self.entries@[j].0@
                    && out@[j].1@ == self.entries@[j].1@,
            decreases n - i,
        {
            let k = self.entries[i].0.clone();
            let v = self.entries[i].1.duplicate();
            out.push((k, v));
            i = i + 1;
        }
        proof {
            broadcast use lemma_entries_view_index;

            assert forall|j: int| 0 <= j < self.entries@.len() implies entries_view(out@)[j]
                == self@[j] by {
                assert(out@[j].0@ == self.entries@[j].0@ && out@[j].1@ == self.entries@[j].1@);
            }
            assert(entries_view(out@) =~= self@);
        }
        FieldMap { entries: out }
    }
}

} // verus!
