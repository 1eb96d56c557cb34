//! An insertion-ordered map from text keys to values.
//!
//! The keys live in an `indexmap::IndexSet`, which keeps them in insertion
//! order and finds a key's position by hashing. The values sit beside it in
//! a `Vec`, the value of the key at position `i` at index `i`: of the
//! outside collection only the keys need to be taken on trust, and what a
//! map holds for its keys is proved for every type of value alike.

use indexmap::IndexSet;
use vstd::prelude::*;

verus! {

/// `indexmap::IndexSet`, taken as it is: nothing is known of a set but what
/// the functions below say of it.
#[verifier::external_type_specification]
#[verifier::external_body]
#[verifier::reject_recursive_types(T)]
#[verifier::reject_recursive_types(S)]
pub struct ExIndexSet<T, S>(IndexSet<T, S>);

/// The keys that a set holds, in the order in which it hands them out.
pub uninterp spec fn key_seq(keys: IndexSet<String>) -> Seq<Seq<char>>;

/// `IndexSet::new`: a new set holds no key.
#[verifier::external_body]
fn keys_new() -> (keys: IndexSet<String>)
    ensures
        key_seq(keys) == Seq::<Seq<char>>::empty(),
{
    IndexSet::new()
}

/// `IndexSet::insert`: a key that the set already holds is left where it is
/// and `false` comes back; any other key is put last and `true` comes back.
#[verifier::external_body]
fn keys_insert(keys: &mut IndexSet<String>, key: String) -> (fresh: bool)
    ensures
        fresh == !key_seq(*old(keys)).contains(key@),
        key_seq(*final(keys)) == if fresh {
            key_seq(*old(keys)).push(key@)
        } else {
            key_seq(*old(keys))
        },
{
    keys.insert(key)
}

/// `IndexSet::get_index_of`: a position at which the set holds the key, or
/// `None` where it holds the key nowhere.
#[verifier::external_body]
fn keys_index_of(keys: &IndexSet<String>, key: &str) -> (found: Option<usize>)
    ensures
        match found {
            Some(i) => i < key_seq(*keys).len() && key_seq(*keys)[i as int] == key@,
            None => !key_seq(*keys).contains(key@),
        },
{
    keys.get_index_of(key)
}

/// `IndexSet::get_index`: the key at a position below the length, `None` at
/// any other position.
#[verifier::external_body]
fn keys_get(keys: &IndexSet<String>, i: usize) -> (key: Option<&String>)
    ensures
        match key {
            Some(k) => i < key_seq(*keys).len() && k@ == key_seq(*keys)[i as int],
            None => i >= key_seq(*keys).len(),
        },
{
    keys.get_index(i)
}

/// A map from text keys to values that keeps its entries in the order in
/// which their keys were first inserted.
#[derive(Debug)]
pub struct OrderedMap<T> {
    keys: IndexSet<String>,
    values: Vec<T>,
}

impl<T> OrderedMap<T> {
    /// Every key has one value and no key occurs twice.
    #[verifier::type_invariant]
    closed spec fn inv(&self) -> bool {
        &&& key_seq(self.keys).len() == self.values@.len()
        &&& key_seq(self.keys).no_duplicates()
    }

    /// The keys, in insertion order.
    pub closed spec fn keys(&self) -> Seq<Seq<char>> {
        key_seq(self.keys)
    }

    /// The values, each at the position of its key.
    pub closed spec fn values(&self) -> Seq<T> {
        self.values@
    }

    /// The empty map.
    pub fn new() -> (m: Self)
        ensures
            m.keys() == Seq::<Seq<char>>::empty(),
            m.values() == Seq::<T>::empty(),
    {
        OrderedMap { keys: keys_new(), values: Vec::new() }
    }

    /// The number of entries. Every key has one value, and no key occurs
    /// twice.
    pub fn len(&self) -> (n: usize)
        ensures
            n == self.keys().len(),
            n == self.values().len(),
            self.keys().no_duplicates(),
    {
        proof {
            use_type_invariant(self);
        }
        self.values.len()
    }

    /// Whether the map holds `key`.
    pub fn contains_key(&self, key: &str) -> (b: bool)
        ensures
            b == self.keys().contains(key@),
    {
        keys_index_of(&self.keys, key).is_some()
    }

    /// The position of `key`, if the map holds it.
    pub fn index_of(&self, key: &str) -> (found: Option<usize>)
        ensures
            match found {
                Some(i) => i == self.keys().index_of(key@) && self.keys().contains(key@),
                None => !self.keys().contains(key@),
            },
    {
        let found = keys_index_of(&self.keys, key);
        proof {
            use_type_invariant(self);
            if let Some(i) = found {
                assert(self.keys()[i as int] == key@);
                self.keys().index_of_first_ensures(key@);
            }
        }
        found
    }

    /// The value of `key`, if the map holds it.
    pub fn get(&self, key: &str) -> (found: Option<&T>)
        ensures
            match found {
                Some(v) => self.keys().contains(key@) && *v == self.values()[self.keys().index_of(
                    key@,
                )],
                None => !self.keys().contains(key@),
            },
    {
        proof {
            use_type_invariant(self);
        }
        match self.index_of(key) {
            Some(i) => Some(&self.values[i]),
            None => None,
        }
    }

    /// The key at position `i`.
    pub fn key_at(&self, i: usize) -> (key: &String)
        requires
            i < self.keys().len(),
        ensures
            key@ == self.keys()[i as int],
    {
        match keys_get(&self.keys, i) {
            Some(k) => k,
            None => {
                proof {
                    assert(false);
                }
                vstd::pervasive::unreached()
            },
        }
    }

    /// The value at position `i`.
    pub fn value_at(&self, i: usize) -> (value: &T)
        requires
            i < self.keys().len(),
        ensures
            *value == self.values()[i as int],
    {
        proof {
            use_type_invariant(self);
        }
        &self.values[i]
    }

    /// The entry at position `i`, if the map has that many entries.
    pub fn entry_at(&self, i: usize) -> (entry: Option<(&String, &T)>)
        ensures
            match entry {
                Some((key, value)) => {
                    &&& i < self.keys().len()
                    &&& key@ == self.keys()[i as int]
                    &&& *value == self.values()[i as int]
                },
                None => i >= self.keys().len(),
            },
    {
        if i < self.len() {
            Some((self.key_at(i), self.value_at(i)))
        } else {
            None
        }
    }

    /// Puts `value` in the place of the value at position `i` and hands the
    /// old value back.
    pub fn replace_at(&mut self, i: usize, value: T) -> (previous: T)
        requires
            i < old(self).keys().len(),
        ensures
            previous == old(self).values()[i as int],
            final(self).keys() == old(self).keys(),
            final(self).values() == old(self).values().update(i as int, value),
    {
        proof {
            use_type_invariant(&*self);
        }
        let mut taken = OrderedMap { keys: keys_new(), values: Vec::new() };
        std::mem::swap(self, &mut taken);
        let OrderedMap { keys, mut values } = taken;
        let mut value = value;
        std::mem::swap(&mut values[i], &mut value);
        *self = OrderedMap { keys, values };
        value
    }

    /// Puts `value` under `key`. A key that the map already holds keeps its
    /// place and gets the new value, and the old value comes back; a new key
    /// goes last.
    pub fn insert(&mut self, key: String, value: T) -> (previous: Option<T>)
        ensures
            match previous {
                Some(v) => {
                    &&& old(self).keys().contains(key@)
                    &&& v == old(self).values()[old(self).keys().index_of(key@)]
                    &&& final(self).keys() == old(self).keys()
                    &&& final(self).values() == old(self).values().update(
                        old(self).keys().index_of(key@),
                        value,
                    )
                },
                None => {
                    &&& !old(self).keys().contains(key@)
                    &&& final(self).keys() == old(self).keys().push(key@)
                    &&& final(self).values() == old(self).values().push(value)
                },
            },
    {
        proof {
            use_type_invariant(&*self);
        }
        let mut taken = OrderedMap { keys: keys_new(), values: Vec::new() };
        std::mem::swap(self, &mut taken);
        let OrderedMap { mut keys, mut values } = taken;
        match keys_index_of(&keys, key.as_str()) {
            Some(i) => {
                proof {
                    assert(key_seq(keys)[i as int] == key@);
                    key_seq(keys).index_of_first_ensures(key@);
                }
                let mut value = value;
                std::mem::swap(&mut values[i], &mut value);
                *self = OrderedMap { keys, values };
                Some(value)
            },
            None => {
                keys_insert(&mut keys, key);
                values.push(value);
                *self = OrderedMap { keys, values };
                None
            },
        }
    }
}

/// The keys of a sequence of entries.
pub open spec fn entry_keys<V>(entries: Seq<(Seq<char>, V)>) -> Seq<Seq<char>> {
    Seq::new(entries.len(), |i: int| entries[i].0)
}

/// The value under `key` in a sequence of entries: that of the first entry
/// with this key.
pub open spec fn entry_value<V>(entries: Seq<(Seq<char>, V)>, key: Seq<char>) -> Option<V> {
    if entry_keys(entries).contains(key) {
        Some(entries[entry_keys(entries).index_of(key)].1)
    } else {
        None
    }
}

impl<T: DeepView> OrderedMap<T> {
    /// The keys of the map are the keys of its entries.
    pub proof fn lemma_entry_keys(&self)
        requires
            self.keys().len() == self.values().len(),
        ensures
            entry_keys(self.deep_view()) == self.keys(),
    {
        assert(entry_keys(self.deep_view()) =~= self.keys());
    }
}

impl<T: DeepView> DeepView for OrderedMap<T> {
    type V = Seq<(Seq<char>, T::V)>;

    open spec fn deep_view(&self) -> Self::V {
        Seq::new(self.keys().len(), |i: int| (self.keys()[i], self.values()[i].deep_view()))
    }
}

} // verus!
