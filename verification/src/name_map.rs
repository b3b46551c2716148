//! A map from names to values that lists its entries in the order of the
//! names. It keeps what arrived last under each name.

use crate::text::{comes_before, equal, lemma_precedes_irreflexive, lemma_precedes_total,
    lemma_precedes_transitive, precedes};
use vstd::prelude::*;

verus! {

/// The names rise strictly, so none occurs twice.
pub open spec fn in_order(names: Seq<Seq<char>>) -> bool {
    forall|i: int, j: int| 0 <= i < j < names.len() ==> precedes(names[i], names[j])
}

/// In a list of rising names every name stands at one place only.
pub proof fn lemma_in_order_distinct(names: Seq<Seq<char>>, i: int, j: int)
    requires
        in_order(names),
        0 <= i < names.len(),
        0 <= j < names.len(),
        names[i] == names[j],
    ensures
        i == j,
{
    lemma_precedes_irreflexive(names[i]);
}

/// Where a search for `key` stops at place `at` without finding it, no name
/// is `key` and every name from that place on comes after `key`.
proof fn lemma_absent_at(names: Seq<Seq<char>>, at: int, key: Seq<char>)
    requires
        in_order(names),
        0 <= at <= names.len(),
        forall|i: int| 0 <= i < at ==> precedes(names[i], key),
        at < names.len() ==> !precedes(names[at], key) && names[at] != key,
    ensures
        !names.contains(key),
        forall|i: int| at <= i < names.len() ==> precedes(key, names[i]),
{
    lemma_precedes_irreflexive(key);
    assert forall|i: int| at <= i < names.len() implies precedes(key, names[i]) by {
        lemma_precedes_total(names[at], key);
        if i > at {
            lemma_precedes_transitive(key, names[at], names[i]);
        }
    }
}

/// A name put between the names that come before it and those that come
/// after it leaves the names rising.
proof fn lemma_insert_in_order(names: Seq<Seq<char>>, at: int, key: Seq<char>)
    requires
        in_order(names),
        0 <= at <= names.len(),
        forall|i: int| 0 <= i < at ==> precedes(names[i], key),
        forall|i: int| at <= i < names.len() ==> precedes(key, names[i]),
    ensures
        in_order(names.insert(at, key)),
{
    let longer = names.insert(at, key);
    names.insert_ensures(at, key);
    assert forall|i: int, j: int| 0 <= i < j < longer.len() implies precedes(
        longer[i],
        longer[j],
    ) by {
        if j > at {
            assert(longer[j] == names[j - 1]);
        }
        if i > at {
            assert(longer[i] == names[i - 1]);
        }
    }
}

/// A map from names to values, held as a list of entries by rising name.
pub struct NameMap<V> {
    entries: Vec<(String, V)>,
}

impl<V> NameMap<V> {
    /// The names, in the order in which the entries are listed.
    pub closed spec fn names(&self) -> Seq<Seq<char>> {
        Seq::new(self.entries@.len(), |i: int| self.entries@[i].0@)
    }

    /// The values, each at the place of its name.
    pub closed spec fn values(&self) -> Seq<V> {
        Seq::new(self.entries@.len(), |i: int| self.entries@[i].1)
    }

    #[verifier::type_invariant]
    spec fn names_rise(&self) -> bool {
        in_order(self.names())
    }

    /// The value under each name is the value at the place of the name.
    pub proof fn lemma_value_at(&self, at: int)
        requires
            in_order(self.names()),
            self.names().len() == self.values().len(),
            0 <= at < self.names().len(),
        ensures
            self.has(self.names()[at]),
            self.value_of(self.names()[at]) == self.values()[at],
    {
        let names = self.names();
        lemma_in_order_distinct(names, names.index_of(names[at]), at);
    }

    /// Whether an entry stands under `name`.
    #[verifier::inline]
    pub open spec fn has(&self, name: Seq<char>) -> bool {
        self.names().contains(name)
    }

    /// The value under `name`, for a name that has an entry.
    pub open spec fn value_of(&self, name: Seq<char>) -> V {
        self.values()[self.names().index_of(name)]
    }

    /// A map without entries.
    pub fn new() -> (map: Self)
        ensures
            map.names() == Seq::<Seq<char>>::empty(),
            map.values() == Seq::<V>::empty(),
    {
        NameMap { entries: Vec::new() }
    }

    /// The number of entries. The names of a map always rise, and there are as
    /// many values as names.
    pub fn len(&self) -> (count: usize)
        ensures
            count == self.names().len(),
            count == self.values().len(),
            in_order(self.names()),
    {
        proof {
            use_type_invariant(self);
        }
        self.entries.len()
    }

    /// The name of the entry at place `at`.
    pub fn name_at(&self, at: usize) -> (name: &String)
        requires
            at < self.names().len(),
        ensures
            name@ == self.names()[at as int],
    {
        &self.entries[at].0
    }

    /// The value of the entry at place `at`.
    pub fn value_at(&self, at: usize) -> (value: &V)
        requires
            at < self.values().len(),
        ensures
            *value == self.values()[at as int],
    {
        &self.entries[at].1
    }

    /// Removes every entry.
    pub fn clear(&mut self)
        ensures
            final(self).names() == Seq::<Seq<char>>::empty(),
            final(self).values() == Seq::<V>::empty(),
    {
        self.entries = Vec::new();
    }

    /// The place of `name` among the names: the first place whose name does
    /// not come before it.
    fn place_of(&self, name: &str) -> (at: usize)
        ensures
            at <= self.names().len(),
            forall|i: int| 0 <= i < at ==> precedes(self.names()[i], name@),
            at < self.names().len() ==> !precedes(self.names()[at as int], name@),
    {
        let mut at: usize = 0;
        while at < self.entries.len() && comes_before(self.entries[at].0.as_str(), name)
            invariant
                at <= self.entries@.len(),
                forall|i: int| 0 <= i < at ==> precedes(self.names()[i], name@),
            decreases self.entries@.len() - at,
        {
            at += 1;
        }
        at
    }

    /// The value under `name`, if there is one.
    pub fn get(&self, name: &str) -> (value: Option<&V>)
        ensures
            match value {
                Some(v) => self.has(name@) && *v == self.value_of(name@),
                None => !self.has(name@),
            },
    {
        proof {
            use_type_invariant(self);
        }
        let at = self.place_of(name);
        if at < self.entries.len() && equal(self.entries[at].0.as_str(), name) {
            proof {
                let names = self.names();
                assert(names[at as int] == name@);
                lemma_in_order_distinct(names, names.index_of(name@), at as int);
            }
            Some(&self.entries[at].1)
        } else {
            proof {
                lemma_absent_at(self.names(), at as int, name@);
            }
            None
        }
    }

    /// Puts `value` under `name`, in place of what stood there. Every other
    /// entry stays.
    pub fn insert(&mut self, name: String, value: V)
        ensures
            final(self).has(name@),
            final(self).value_of(name@) == value,
            forall|other: Seq<char>|
                other != name@ ==> final(self).has(other) == old(self).has(other),
            forall|other: Seq<char>|
                other != name@ && old(self).has(other) ==> final(self).value_of(other) == old(self).value_of(other),
            old(self).has(name@) ==> final(self).names() == old(self).names() && final(self).values() == old(self).values().update(old(self).names().index_of(name@), value),
            !old(self).has(name@) ==> exists|at: int|
                0 <= at <= old(self).names().len() && final(self).names() == old(self).names().insert(at, name@) && final(self).values() == old(self).values().insert(
                    at,
                    value,
                ),
    {
        proof {
            use_type_invariant(&*self);
        }
        let at = self.place_of(name.as_str());
        let replaces = at < self.entries.len() && equal(
            self.entries[at].0.as_str(),
            name.as_str(),
        );
        let ghost before = *self;
        let ghost key = name@;
        let ghost old_names = before.names();
        let ghost old_values = before.values();
        let mut entries: Vec<(String, V)> = Vec::new();
        std::mem::swap(&mut self.entries, &mut entries);
        if replaces {
            entries.set(at, (name, value));
            proof {
                let next = NameMap { entries };
                assert(next.names() =~= old_names);
                assert(next.values() =~= old_values.update(at as int, value));
            }
            self.entries = entries;
            proof {
                assert(old_names[at as int] == key);
                lemma_in_order_distinct(old_names, old_names.index_of(key), at as int);
                assert forall|other: Seq<char>| other != key && before.has(other) implies self.value_of(
                    other,
                ) == before.value_of(other) by {
                    assert(old_names.index_of(other) != at);
                }
            }
        } else {
            proof {
                lemma_absent_at(old_names, at as int, key);
                lemma_insert_in_order(old_names, at as int, key);
            }
            entries.insert(at, (name, value));
            proof {
                let next = NameMap { entries };
                assert(next.names() =~= old_names.insert(at as int, key));
                assert(next.values() =~= old_values.insert(at as int, value));
            }
            self.entries = entries;
            proof {
                let new_names = self.names();
                old_names.insert_ensures(at as int, key);
                old_values.insert_ensures(at as int, value);
                assert(new_names[at as int] == key);
                lemma_in_order_distinct(new_names, new_names.index_of(key), at as int);
                assert forall|other: Seq<char>| other != key implies self.has(other) == before.has(
                    other,
                ) by {
                    if before.has(other) {
                        let i = old_names.index_of(other);
                        assert(new_names[if i < at { i } else { i + 1 }] == other);
                    }
                    if self.has(other) {
                        let i = new_names.index_of(other);
                        assert(old_names[if i < at { i } else { i - 1 }] == other);
                    }
                }
                assert forall|other: Seq<char>| other != key && before.has(other) implies self.value_of(
                    other,
                ) == before.value_of(other) by {
                    let i = old_names.index_of(other);
                    let shifted = if i < at { i } else { i + 1 };
                    assert(new_names[shifted] == other);
                    lemma_in_order_distinct(new_names, new_names.index_of(other), shifted);
                }
            }
        }
    }
}

} // verus!
