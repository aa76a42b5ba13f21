//! A map from names to values that remembers the order of insertion.

use vstd::prelude::*;
use crate::text::same_text;

verus! {

/// The index at which `name` stands in `names`.
pub open spec fn position(names: Seq<Seq<char>>, name: Seq<char>) -> int {
    choose|i: int| 0 <= i < names.len() && names[i] == name
}

/// In a sequence without repetition an element stands at one index only.
pub proof fn lemma_position(names: Seq<Seq<char>>, i: int)
    requires
        names.no_duplicates(),
        0 <= i < names.len(),
    ensures
        position(names, names[i]) == i,
{
}

/// A map keyed by name. It holds its entries in the order in which their names
/// were first inserted, and no name occurs twice.
#[derive(Debug, PartialEq, Eq)]
pub struct NameMap<V> {
    names: Vec<String>,
    values: Vec<V>,
}

impl<V> View for NameMap<V> {
    type V = Map<Seq<char>, V>;

    open spec fn view(&self) -> Map<Seq<char>, V> {
        Map::new(
            |k: Seq<char>| self.names().contains(k),
            |k: Seq<char>| self.values()[position(self.names(), k)],
        )
    }
}

impl<V: DeepView> DeepView for NameMap<V> {
    type V = Map<Seq<char>, V::V>;

    open spec fn deep_view(&self) -> Map<Seq<char>, V::V> {
        self@.map_values(|value: V| value.deep_view())
    }
}

impl<V> NameMap<V> {
    /// The names, in insertion order.
    pub closed spec fn names(&self) -> Seq<Seq<char>> {
        self.names@.map_values(|n: String| n@)
    }

    /// The values, each at the index of its name.
    pub closed spec fn values(&self) -> Seq<V> {
        self.values@
    }

    /// Every name has one value, and no name occurs twice.
    pub open spec fn well_formed(&self) -> bool {
        &&& self.names().len() == self.values().len()
        &&& self.names().no_duplicates()
    }

    #[verifier::type_invariant]
    spec fn inv(&self) -> bool {
        self.well_formed()
    }

    /// The empty map.
    pub fn new() -> (map: Self)
        ensures
            map@ == Map::<Seq<char>, V>::empty(),
            map.names() == Seq::<Seq<char>>::empty(),
            map.values() == Seq::<V>::empty(),
            map.well_formed(),
    {
        let map = NameMap { names: Vec::new(), values: Vec::new() };
        assert(map.names() =~= Seq::<Seq<char>>::empty());
        assert(map@ =~= Map::<Seq<char>, V>::empty());
        map
    }

    /// The number of entries.
    pub fn len(&self) -> (n: usize)
        ensures
            n == self.names().len(),
            self@.dom().finite(),
            n == self@.len(),
            self.well_formed(),
    {
        proof {
            use_type_invariant(self);
            assert(self@.dom() =~= self.names().to_set());
            self.names().unique_seq_to_set();
            vstd::seq_lib::seq_to_set_is_finite(self.names());
        }
        self.names.len()
    }

    /// The name of the entry at index `i`.
    pub fn name_at(&self, i: usize) -> (name: &String)
        requires
            i < self.names().len(),
        ensures
            name@ == self.names()[i as int],
            self@.contains_key(name@),
    {
        assert(self.names()[i as int] == self.names@[i as int]@);
        &self.names[i]
    }

    /// The value of the entry at index `i`.
    pub fn value_at(&self, i: usize) -> (value: &V)
        requires
            i < self.names().len(),
        ensures
            *value == self.values()[i as int],
            *value == self@[self.names()[i as int]],
    {
        proof {
            use_type_invariant(self);
            lemma_position(self.names(), i as int);
        }
        &self.values[i]
    }

    /// The index of the entry called `name`, if there is one.
    fn find(&self, name: &str) -> (found: Option<usize>)
        ensures
            match found {
                Some(i) => i < self.names().len() && self.names()[i as int] == name@,
                None => !self.names().contains(name@),
            },
    {
        let mut i: usize = 0;
        while i < self.names.len()
            invariant
                i <= self.names@.len(),
                forall|j: int| 0 <= j < i ==> self.names()[j] != name@,
            decreases self.names@.len() - i,
        {
            assert(self.names()[i as int] == self.names@[i as int]@);
            if same_text(self.names[i].as_str(), name) {
                return Some(i);
            }
            i += 1;
        }
        None
    }

    /// The value under `name`, if the map has that name.
    pub fn get(&self, name: &str) -> (value: Option<&V>)
        ensures
            match value {
                Some(v) => self@.contains_key(name@) && *v == self@[name@],
                None => !self@.contains_key(name@),
            },
    {
        proof {
            use_type_invariant(self);
        }
        match self.find(name) {
            Some(i) => {
                proof {
                    lemma_position(self.names(), i as int);
                }
                Some(&self.values[i])
            },
            None => None,
        }
    }

    /// Puts `value` under `name` and returns the value that was there before.
    /// A new name goes to the end; a name that is already there keeps its place.
    pub fn insert(&mut self, name: String, value: V) -> (previous: Option<V>)
        ensures
            final(self)@ == old(self)@.insert(name@, value),
            previous == (if old(self)@.contains_key(name@) {
                Some(old(self)@[name@])
            } else {
                None
            }),
            old(self)@.contains_key(name@) ==> final(self).names() == old(self).names(),
            !old(self)@.contains_key(name@) ==> final(self).names() == old(self).names().push(
                name@,
            ),
    {
        proof {
            use_type_invariant(&*self);
        }
        let found = self.find(name.as_str());
        let mut taken = NameMap::new();
        std::mem::swap(self, &mut taken);
        let NameMap { names: mut names, values: mut values } = taken;
        let ghost old_names = names@.map_values(|n: String| n@);
        let ghost old_values = values@;
        let previous = match found {
            Some(i) => {
                proof {
                    lemma_position(old_names, i as int);
                }
                values.push(value);
                let before = values.swap_remove(i);
                assert(values@ =~= old_values.update(i as int, value));
                Some(before)
            },
            None => {
                names.push(name);
                values.push(value);
                assert(names@.map_values(|n: String| n@) =~= old_names.push(name@));
                None
            },
        };
        let ghost new_names = names@.map_values(|n: String| n@);
        let ghost new_values = values@;
        assert(new_names.no_duplicates());
        *self = NameMap { names, values };
        proof {
            assert forall|k: Seq<char>| #[trigger] new_names.contains(k) implies new_values[position(
                new_names,
                k,
            )] == old(self)@.insert(name@, value)[k] by {
                let j = position(new_names, k);
                if k != name@ {
                    assert(old_names.contains(k));
                    let p = position(old_names, k);
                    assert(new_names[p] == k);
                    lemma_position(new_names, p);
                } else if found is None {
                    lemma_position(new_names, new_names.len() - 1);
                }
            }
            assert(self.names() == new_names);
            assert(self.values() == new_values);
            assert forall|k: Seq<char>| new_names.contains(k) <==> (old_names.contains(k) || k
                == name@) by {
                if old_names.contains(k) {
                    assert(new_names[position(old_names, k)] == k);
                }
                if k == name@ {
                    if found is None {
                        assert(new_names[new_names.len() - 1] == k);
                    }
                }
            }
            assert(self@ =~= old(self)@.insert(name@, value));
        }
        previous
    }
}

} // verus!
