//! The intermediate values that the codec works on.
//!
//! A message travels as an ordered sequence of values. A value is a small
//! tree: a scalar, a sequence of values, or a dictionary from strings to
//! values. The codec reads only the top of each value; what lies below is
//! payload that it carries through.

use crate::keys::{
    key_before, lemma_before_irreflexive, lemma_before_total, lemma_before_transitive,
    lemma_sorted_distinct, sorted_keys, str_before, str_equal,
};
use vstd::prelude::*;

verus! {

/// What an [`Intermediate`] holds, as mathematics.
pub enum IntermediateView {
    Null,
    Bool(bool),
    U64(u64),
    I64(i64),
    Real(Seq<char>),
    String(Seq<char>),
    Array(Seq<IntermediateView>),
    Object(Seq<(Seq<char>, IntermediateView)>),
}

/// An intermediate value.
///
/// A number is an unsigned integer, a signed integer, or, where it is
/// neither, the decimal text of the number.
#[derive(Debug, PartialEq)]
pub enum Intermediate {
    Null,
    Bool(bool),
    U64(u64),
    I64(i64),
    Real(String),
    String(String),
    Array(Vec<Intermediate>),
    Object(Dict),
}

/// A dictionary from strings to values. It holds one value for a key, and
/// keeps its entries in the order of their keys, so that two dictionaries
/// with the same entries are equal however they were filled.
#[derive(Debug, PartialEq)]
pub struct Dict {
    entries: Vec<(String, Intermediate)>,
}

/// The views of a sequence of values, one for one.
pub open spec fn views_of(values: Seq<Intermediate>) -> Seq<IntermediateView> {
    Seq::new(values.len(), |i: int| values[i]@)
}

/// The views of a list of entries: each key with the view of its value.
pub open spec fn entry_views(entries: Seq<(String, Intermediate)>) -> Seq<
    (Seq<char>, IntermediateView),
> {
    Seq::new(entries.len(), |i: int| (entries[i].0@, entries[i].1@))
}

/// The index of the entry with the given key, if there is one.
pub open spec fn key_index(entries: Seq<(Seq<char>, IntermediateView)>, key: Seq<char>) -> Option<
    int,
> {
    if exists|i: int| 0 <= i < entries.len() && (#[trigger] entries[i]).0 == key {
        Some(choose|i: int| 0 <= i < entries.len() && (#[trigger] entries[i]).0 == key)
    } else {
        None
    }
}

/// What a value holds. Recursive: an array holds the views of its items, a
/// dictionary those of its entries.
pub open spec fn view_of(value: Intermediate) -> IntermediateView
    decreases value,
{
    match value {
        Intermediate::Null => IntermediateView::Null,
        Intermediate::Bool(b) => IntermediateView::Bool(b),
        Intermediate::U64(u) => IntermediateView::U64(u),
        Intermediate::I64(n) => IntermediateView::I64(n),
        Intermediate::Real(s) => IntermediateView::Real(s@),
        Intermediate::String(s) => IntermediateView::String(s@),
        Intermediate::Array(a) => IntermediateView::Array(
            Seq::new(
                a@.len(),
                |i: int|
                    if 0 <= i < a@.len() {
                        view_of(a[i])
                    } else {
                        IntermediateView::Null
                    },
            ),
        ),
        Intermediate::Object(d) => IntermediateView::Object(dict_view(d)),
    }
}

/// The entries of a dictionary, in their order, each with the view of its
/// value.
pub closed spec fn dict_view(dict: Dict) -> Seq<(Seq<char>, IntermediateView)>
    decreases dict,
{
    Seq::new(
        dict.entries@.len(),
        |i: int|
            if 0 <= i < dict.entries@.len() {
                (dict.entries[i].0@, view_of(dict.entries[i].1))
            } else {
                (Seq::empty(), IntermediateView::Null)
            },
    )
}

impl View for Intermediate {
    type V = IntermediateView;

    open spec fn view(&self) -> IntermediateView {
        view_of(*self)
    }
}

impl View for Dict {
    type V = Seq<(Seq<char>, IntermediateView)>;

    open spec fn view(&self) -> Seq<(Seq<char>, IntermediateView)> {
        dict_view(*self)
    }
}

/// The view of an array is the views of its items.
pub proof fn lemma_array_view(items: Vec<Intermediate>)
    ensures
        Intermediate::Array(items)@ == IntermediateView::Array(views_of(items@)),
{
    assert(Intermediate::Array(items)@->Array_0 =~= views_of(items@));
}

impl Clone for Intermediate {
    /// A copy of the whole tree.
    fn clone(&self) -> (copy: Intermediate)
        ensures
            copy@ == self@,
        decreases self,
    {
        match self {
            Intermediate::Null => Intermediate::Null,
            Intermediate::Bool(b) => Intermediate::Bool(*b),
            Intermediate::U64(u) => Intermediate::U64(*u),
            Intermediate::I64(i) => Intermediate::I64(*i),
            Intermediate::Real(s) => Intermediate::Real(s.clone()),
            Intermediate::String(s) => Intermediate::String(s.clone()),
            Intermediate::Array(a) => {
                let mut items: Vec<Intermediate> = Vec::new();
                let mut i: usize = 0;
                while i < a.len()
                    invariant
                        i <= a.len(),
                        items.len() == i,
                        forall|j: int| 0 <= j < a.len() ==> decreases_to!(self => #[trigger] a[j]),
                        forall|j: int| 0 <= j < i ==> (#[trigger] items[j])@ == a[j]@,
                    decreases a.len() - i,
                {
                    items.push(a[i].clone());
                    i += 1;
                }
                assert(Intermediate::Array(items)@->Array_0 =~= self@->Array_0);
                Intermediate::Array(items)
            },
            Intermediate::Object(d) => Intermediate::Object(d.clone()),
        }
    }
}

impl Clone for Dict {
    /// A copy of the dictionary and of the values in it.
    fn clone(&self) -> (copy: Dict)
        ensures
            copy@ == self@,
        decreases self,
    {
        proof {
            use_type_invariant(self);
        }
        let mut entries: Vec<(String, Intermediate)> = Vec::new();
        let mut i: usize = 0;
        while i < self.entries.len()
            invariant
                i <= self.entries.len(),
                entries.len() == i,
                forall|j: int|
                    0 <= j < i ==> (#[trigger] entries[j]).0@ == self.entries[j].0@ && entries[j].1@
                        == self.entries[j].1@,
            decreases self.entries.len() - i,
        {
            entries.push((self.entries[i].0.clone(), self.entries[i].1.clone()));
            i += 1;
        }
        let ghost view = (Dict { entries })@;
        assert(view =~= self@);
        Dict { entries }
    }
}

impl Dict {
    #[verifier::type_invariant]
    spec fn keys_are_sorted(&self) -> bool {
        sorted_keys(self@)
    }

    /// The empty dictionary.
    pub fn new() -> (d: Dict)
        ensures
            d@ == Seq::<(Seq<char>, IntermediateView)>::empty(),
    {
        let d = Dict { entries: Vec::new() };
        assert(d@ =~= Seq::<(Seq<char>, IntermediateView)>::empty());
        d
    }

    /// The number of entries.
    pub fn len(&self) -> (n: usize)
        ensures
            n == self@.len(),
            sorted_keys(self@),
    {
        proof {
            use_type_invariant(self);
        }
        self.entries.len()
    }

    /// The entries, in the order of their keys.
    pub fn entries(&self) -> (entries: &Vec<(String, Intermediate)>)
        ensures
            entry_views(entries@) == self@,
            sorted_keys(self@),
    {
        proof {
            use_type_invariant(self);
        }
        assert(entry_views(self.entries@) =~= self@);
        &self.entries
    }

    /// The value under `key`, if the dictionary has the key.
    pub fn get(&self, key: &str) -> (found: Option<&Intermediate>)
        ensures
            sorted_keys(self@),
            match found {
                Some(value) => key_index(self@, key@) matches Some(i) && self@[i].1 == value@,
                None => key_index(self@, key@) is None,
            },
    {
        proof {
            use_type_invariant(self);
        }
        let mut i: usize = 0;
        while i < self.entries.len()
            invariant
                i <= self.entries.len(),
                sorted_keys(self@),
                forall|j: int| 0 <= j < i ==> (#[trigger] self@[j]).0 != key@,
            decreases self.entries.len() - i,
        {
            if str_equal(self.entries[i].0.as_str(), key) {
                proof {
                    assert(self@[i as int].0 == key@);
                    lemma_sorted_distinct(self@, i as int, key_index(self@, key@)->Some_0);
                }
                return Some(&self.entries[i].1);
            }
            i += 1;
        }
        None
    }

    /// The dictionary with `value` under `key`: what [`Dict::insert`] makes
    /// of it.
    pub fn with(self, key: String, value: Intermediate) -> (d: Dict)
        ensures
            sorted_keys(d@),
            match key_index(self@, key@) {
                Some(i) => d@ == self@.update(i, (key@, value@)),
                None => exists|p: int|
                    0 <= p <= self@.len() && d@ == #[trigger] self@.insert(p, (key@, value@)),
            },
    {
        let mut d = self;
        d.insert(key, value);
        d
    }

    /// Puts `value` under `key`. Where the dictionary has the key, the value
    /// takes the place of the one that was there, which is returned; else
    /// the entry goes where the order of the keys puts it.
    pub fn insert(&mut self, key: String, value: Intermediate) -> (replaced: Option<Intermediate>)
        ensures
            sorted_keys(final(self)@),
            match key_index(old(self)@, key@) {
                Some(i) => {
                    &&& final(self)@ == old(self)@.update(i, (key@, value@))
                    &&& replaced matches Some(before)
                    &&& before@ == old(self)@[i].1
                },
                None => {
                    &&& replaced is None
                    &&& exists|p: int|
                        0 <= p <= old(self)@.len() && final(self)@ == #[trigger] old(self)@.insert(
                            p,
                            (key@, value@),
                        )
                },
            },
    {
        proof {
            use_type_invariant(&*self);
        }
        let ghost before = self@;
        let mut entries: Vec<(String, Intermediate)> = Vec::new();
        core::mem::swap(&mut entries, &mut self.entries);
        assert((Dict { entries })@ =~= before);
        let mut i: usize = 0;
        while i < entries.len() && str_before(entries[i].0.as_str(), key.as_str())
            invariant
                i <= entries.len(),
                (Dict { entries })@ == before,
                forall|j: int| 0 <= j < i ==> key_before((#[trigger] before[j]).0, key@),
            decreases entries.len() - i,
        {
            assert(before[i as int].0 == entries[i as int].0@);
            i += 1;
        }
        if i < entries.len() {
            assert(before[i as int].0 == entries[i as int].0@);
        }
        if i < entries.len() && entries[i].0 == key {
            proof {
                lemma_sorted_distinct(before, i as int, key_index(before, key@)->Some_0);
            }
            entries.push((key, value));
            let (_, replaced) = entries.swap_remove(i);
            proof {
                let after = (Dict { entries })@;
                assert(after =~= before.update(i as int, (key@, value@)));
                assert forall|a: int, b: int| 0 <= a < b < after.len() implies key_before(
                    (#[trigger] after[a]).0,
                    (#[trigger] after[b]).0,
                ) by {
                    assert(key_before(before[a].0, before[b].0));
                }
            }
            self.entries = entries;
            Some(replaced)
        } else {
            proof {
                lemma_before_irreflexive(key@);
                if i < before.len() {
                    lemma_before_total(key@, before[i as int].0);
                }
                assert forall|j: int| i <= j < before.len() implies key_before(
                    key@,
                    (#[trigger] before[j]).0,
                ) by {
                    if i < j {
                        assert(key_before(before[i as int].0, before[j].0));
                        lemma_before_transitive(key@, before[i as int].0, before[j].0);
                    }
                }
                assert(key_index(before, key@) is None) by {
                    if key_index(before, key@) is Some {
                        let k = key_index(before, key@)->Some_0;
                        if k < i {
                            assert(key_before(before[k].0, key@));
                        } else {
                            assert(key_before(key@, before[k].0));
                        }
                    }
                }
            }
            entries.insert(i, (key, value));
            proof {
                let after = (Dict { entries })@;
                assert(after =~= before.insert(i as int, (key@, value@)));
                assert forall|a: int, b: int| 0 <= a < b < after.len() implies key_before(
                    (#[trigger] after[a]).0,
                    (#[trigger] after[b]).0,
                ) by {
                    if b < i {
                        assert(key_before(before[a].0, before[b].0));
                    } else if b == i {
                        assert(key_before(before[a].0, key@));
                    } else if a < i {
                        assert(key_before(before[a].0, before[b - 1].0));
                    } else if a == i {
                        assert(key_before(key@, before[b - 1].0));
                    } else {
                        assert(key_before(before[a - 1].0, before[b - 1].0));
                    }
                }
            }
            self.entries = entries;
            None
        }
    }
}

} // verus!
