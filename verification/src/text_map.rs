//! A map from strings to values, kept as a list of entries in which no key
//! occurs twice.
use vstd::prelude::*;
use vstd::std_specs::cmp::PartialEqSpecImpl;

use crate::metadata::{values_of, MetadataValue};
use crate::text::same_text;

verus! {

/// A finite map keyed by strings. Its view is the mathematical map from the
/// keys' texts to the values.
#[derive(Debug)]
pub struct TextMap<V> {
    entries: Vec<(String, V)>,
}

impl<V> View for TextMap<V> {
    type V = Map<Seq<char>, V>;

    closed spec fn view(&self) -> Map<Seq<char>, V> {
        Map::new(|key: Seq<char>| self.holds(key), |key: Seq<char>| self.entries@[self.slot(key)].1)
    }
}

impl<V> TextMap<V> {
    #[verifier::type_invariant]
    spec fn keys_differ(self) -> bool {
        forall|i: int, j: int|
            0 <= i < j < self.entries@.len() ==> self.entries@[i].0@ != self.entries@[j].0@
    }

    /// Whether some entry has the key `key`.
    spec fn holds(self, key: Seq<char>) -> bool {
        exists|i: int| 0 <= i < self.entries@.len() && self.entries@[i].0@ == key
    }

    /// The place of the entry with the key `key`.
    spec fn slot(self, key: Seq<char>) -> int {
        choose|i: int| 0 <= i < self.entries@.len() && self.entries@[i].0@ == key
    }

    /// The texts of the keys, in the order of the entries.
    spec fn key_texts(self) -> Seq<Seq<char>> {
        Seq::new(self.entries@.len(), |i: int| self.entries@[i].0@)
    }

    /// The entry at place `i` is the one that the view has for its key.
    proof fn lemma_entry(self, i: int)
        requires
            self.keys_differ(),
            0 <= i < self.entries@.len(),
        ensures
            self.holds(self.entries@[i].0@),
            self.slot(self.entries@[i].0@) == i,
            self@.contains_key(self.entries@[i].0@),
            self@[self.entries@[i].0@] == self.entries@[i].1,
    {
        let key = self.entries@[i].0@;
        let j = self.slot(key);
        assert(0 <= j < self.entries@.len() && self.entries@[j].0@ == key);
        if j < i {
            assert(self.entries@[j].0@ != self.entries@[i].0@);
        } else if i < j {
            assert(self.entries@[i].0@ != self.entries@[j].0@);
        }
    }

    /// The keys of the view are the texts of the entries' keys, each once.
    proof fn lemma_domain(self)
        requires
            self.keys_differ(),
        ensures
            self@.dom() == self.key_texts().to_set(),
            self.key_texts().no_duplicates(),
            self@.dom().finite(),
            self@.dom().len() == self.entries@.len(),
    {
        let texts = self.key_texts();
        assert forall|key: Seq<char>| self@.dom().contains(key) <==> texts.to_set().contains(
            key,
        ) by {
            if self.holds(key) {
                let i = self.slot(key);
                assert(texts[i] == key);
            }
            if texts.contains(key) {
                let i = choose|i: int| 0 <= i < texts.len() && texts[i] == key;
                assert(self.entries@[i].0@ == key);
            }
        }
        assert(self@.dom() =~= texts.to_set());
        assert forall|i: int, j: int|
            0 <= i < texts.len() && 0 <= j < texts.len() && i != j implies texts[i] != texts[j] by {
            if i < j {
                assert(self.entries@[i].0@ != self.entries@[j].0@);
            } else {
                assert(self.entries@[j].0@ != self.entries@[i].0@);
            }
        }
        texts.unique_seq_to_set();
        vstd::seq_lib::seq_to_set_is_finite(texts);
    }

    /// The place of the entry with the key `key`, if there is one.
    fn position(&self, key: &str) -> (found: Option<usize>)
        ensures
            match found {
                Some(i) => i < self.entries@.len() && self.entries@[i as int].0@ == key@,
                None => !self.holds(key@),
            },
    {
        let mut i: usize = 0;
        while i < self.entries.len()
            invariant
                i <= self.entries@.len(),
                forall|j: int| 0 <= j < i ==> self.entries@[j].0@ != key@,
            decreases self.entries@.len() - i,
        {
            if same_text(self.entries[i].0.as_str(), key) {
                return Some(i);
            }
            i += 1;
        }
        None
    }

    /// The empty map.
    pub fn new() -> (map: Self)
        ensures
            map@ == Map::<Seq<char>, V>::empty(),
    {
        let map = TextMap { entries: Vec::new() };
        assert(map@ =~= Map::<Seq<char>, V>::empty());
        map
    }

    /// The number of entries.
    pub fn len(&self) -> (count: usize)
        ensures
            self@.dom().finite(),
            count == self@.dom().len(),
    {
        proof {
            use_type_invariant(self);
            self.lemma_domain();
        }
        self.entries.len()
    }

    /// Whether the map has no entry.
    pub fn is_empty(&self) -> (empty: bool)
        ensures
            empty == (self@ == Map::<Seq<char>, V>::empty()),
    {
        proof {
            use_type_invariant(self);
            if self.entries@.len() > 0 {
                self.lemma_entry(0);
            } else {
                assert(self@ =~= Map::<Seq<char>, V>::empty());
            }
        }
        self.entries.len() == 0
    }

    /// Whether the map has an entry for `key`.
    pub fn contains_key(&self, key: &str) -> (found: bool)
        ensures
            found == self@.contains_key(key@),
    {
        self.position(key).is_some()
    }

    /// The value that the map has for `key`.
    pub fn get(&self, key: &str) -> (value: Option<&V>)
        ensures
            match value {
                Some(v) => self@.contains_key(key@) && *v == self@[key@],
                None => !self@.contains_key(key@),
            },
    {
        match self.position(key) {
            Some(i) => {
                proof {
                    use_type_invariant(self);
                    self.lemma_entry(i as int);
                }
                Some(&self.entries[i].1)
            },
            None => None,
        }
    }

    /// Sets the value for `key`, and hands back the value that the map had for it.
    pub fn insert(&mut self, key: String, value: V) -> (previous: Option<V>)
        ensures
            final(self)@ == old(self)@.insert(key@, value),
            previous == old(self)@.get(key@),
    {
        let previous = self.remove(key.as_str());
        proof {
            use_type_invariant(&*self);
        }
        let ghost before = *self;
        let mut entries: Vec<(String, V)> = Vec::new();
        core::mem::swap(&mut self.entries, &mut entries);
        entries.push((key, value));
        proof {
            let n = before.entries@.len() as int;
            assert forall|i: int, j: int| 0 <= i < j < entries@.len() implies entries@[i].0@
                != entries@[j].0@ by {
                if j == n {
                    assert(before.entries@[i].0@ == entries@[i].0@);
                    assert(!before.holds(key@));
                } else {
                    assert(before.entries@[i].0@ != before.entries@[j].0@);
                }
            }
        }
        core::mem::swap(&mut self.entries, &mut entries);
        proof {
            let after = *self;
            let n = before.entries@.len() as int;
            after.lemma_entry(n);
            assert forall|k: Seq<char>| after@.contains_key(k) <==> before@.insert(
                key@,
                value,
            ).contains_key(k) by {
                if before.holds(k) {
                    let i = before.slot(k);
                    assert(after.entries@[i].0@ == k);
                }
                if after.holds(k) && k != key@ {
                    let i = after.slot(k);
                    assert(before.entries@[i].0@ == k);
                }
            }
            assert forall|k: Seq<char>| after@.contains_key(k) implies after@[k] == before@.insert(
                key@,
                value,
            )[k] by {
                if k != key@ {
                    let i = after.slot(k);
                    assert(before.entries@[i] == after.entries@[i]);
                    before.lemma_entry(i);
                }
            }
            assert(after@ =~= before@.insert(key@, value));
            assert(before@.insert(key@, value) =~= old(self)@.insert(key@, value));
        }
        previous
    }

    /// Takes the entry for `key` out of the map, and hands back its value.
    pub fn remove(&mut self, key: &str) -> (taken: Option<V>)
        ensures
            final(self)@ == old(self)@.remove(key@),
            taken == old(self)@.get(key@),
            !final(self)@.contains_key(key@),
    {
        proof {
            use_type_invariant(&*self);
        }
        match self.position(key) {
            None => {
                assert(self@ =~= self@.remove(key@));
                None
            },
            Some(at) => {
                let ghost before = *self;
                let ghost cut = at as int;
                let mut entries: Vec<(String, V)> = Vec::new();
                core::mem::swap(&mut self.entries, &mut entries);
                let (_, value) = entries.remove(at);
                proof {
                    assert forall|i: int| 0 <= i < entries@.len() implies entries@[i] == (if i
                        < cut {
                        before.entries@[i]
                    } else {
                        before.entries@[i + 1]
                    }) by {}
                    assert forall|i: int, j: int| 0 <= i < j < entries@.len() implies entries@[i].0@
                        != entries@[j].0@ by {
                        let bi = if i < cut { i } else { i + 1 };
                        let bj = if j < cut { j } else { j + 1 };
                        assert(before.entries@[bi].0@ != before.entries@[bj].0@);
                    }
                }
                core::mem::swap(&mut self.entries, &mut entries);
                proof {
                    let after = *self;
                    before.lemma_entry(cut);
                    assert forall|k: Seq<char>| after@.contains_key(k) <==> before@.remove(
                        key@,
                    ).contains_key(k) by {
                        if after.holds(k) {
                            let i = after.slot(k);
                            let bi = if i < cut { i } else { i + 1 };
                            assert(before.entries@[bi].0@ == k);
                            if bi < cut {
                                assert(before.entries@[bi].0@ != before.entries@[cut].0@);
                            } else {
                                assert(before.entries@[cut].0@ != before.entries@[bi].0@);
                            }
                        }
                        if before.holds(k) && k != key@ {
                            let bi = before.slot(k);
                            let i = if bi < cut { bi } else { bi - 1 };
                            assert(after.entries@[i].0@ == k);
                        }
                    }
                    assert forall|k: Seq<char>| after@.contains_key(k) implies after@[k]
                        == before@.remove(key@)[k] by {
                        let i = after.slot(k);
                        let bi = if i < cut { i } else { i + 1 };
                        after.lemma_entry(i);
                        before.lemma_entry(bi);
                    }
                    assert(after@ =~= before@.remove(key@));
                }
                Some(value)
            },
        }
    }

    /// The entries of the map, each key once, in no particular order.
    pub fn into_pairs(self) -> (pairs: Vec<(String, V)>)
        ensures
            pairs@.len() == self@.dom().len(),
            forall|i: int|
                0 <= i < pairs@.len() ==> self@.contains_key(#[trigger] pairs@[i].0@)
                    && self@[pairs@[i].0@] == pairs@[i].1,
            forall|i: int, j: int| 0 <= i < j < pairs@.len() ==> pairs@[i].0@ != pairs@[j].0@,
    {
        proof {
            use_type_invariant(&self);
            self.lemma_domain();
            assert forall|i: int| 0 <= i < self.entries@.len() implies self@.contains_key(
                #[trigger] self.entries@[i].0@,
            ) && self@[self.entries@[i].0@] == self.entries@[i].1 by {
                self.lemma_entry(i);
            }
        }
        self.entries
    }
}

impl Clone for TextMap<MetadataValue> {
    fn clone(&self) -> (copy: Self)
        ensures
            values_of(copy@) == values_of(self@),
    {
        proof {
            use_type_invariant(self);
        }
        let mut entries: Vec<(String, MetadataValue)> = Vec::new();
        let mut i: usize = 0;
        while i < self.entries.len()
            invariant
                i <= self.entries@.len(),
                entries@.len() == i,
                forall|j: int|
                    0 <= j < i ==> entries@[j].0@ == self.entries@[j].0@ && entries@[j].1@
                        == self.entries@[j].1@,
            decreases self.entries@.len() - i,
        {
            entries.push((self.entries[i].0.clone(), self.entries[i].1.clone()));
            i += 1;
        }
        proof {
            assert forall|a: int, b: int| 0 <= a < b < entries@.len() implies entries@[a].0@
                != entries@[b].0@ by {
                assert(self.entries@[a].0@ != self.entries@[b].0@);
            }
        }
        let copy = TextMap { entries };
        proof {
            assert forall|key: Seq<char>| copy@.contains_key(key) <==> self@.contains_key(key) by {
                if copy.holds(key) {
                    let at = copy.slot(key);
                    assert(self.entries@[at].0@ == key);
                }
                if self.holds(key) {
                    let at = self.slot(key);
                    assert(copy.entries@[at].0@ == key);
                }
            }
            assert forall|key: Seq<char>| copy@.contains_key(key) implies copy@[key]@
                == self@[key]@ by {
                let at = copy.slot(key);
                copy.lemma_entry(at);
                self.lemma_entry(at);
            }
            assert(values_of(copy@) =~= values_of(self@));
        }
        copy
    }
}

impl PartialEqSpecImpl for TextMap<MetadataValue> {
    open spec fn obeys_eq_spec() -> bool {
        true
    }

    open spec fn eq_spec(&self, other: &TextMap<MetadataValue>) -> bool {
        values_of(self@) == values_of(other@)
    }
}

impl PartialEq for TextMap<MetadataValue> {
    /// Two maps are equal when they have the same keys and equal values under them.
    fn eq(&self, other: &TextMap<MetadataValue>) -> (same: bool) {
        proof {
            use_type_invariant(self);
            use_type_invariant(other);
        }
        let mut i: usize = 0;
        while i < self.entries.len()
            invariant
                i <= self.entries@.len(),
                self.keys_differ(),
                forall|j: int|
                    0 <= j < i ==> other@.contains_key(#[trigger] self.entries@[j].0@)
                        && other@[self.entries@[j].0@]@ == self.entries@[j].1@,
            decreases self.entries@.len() - i,
        {
            proof {
                self.lemma_entry(i as int);
            }
            match other.get(self.entries[i].0.as_str()) {
                None => {
                    assert(values_of(self@).contains_key(self.entries@[i as int].0@));
                    assert(!values_of(other@).contains_key(self.entries@[i as int].0@));
                    return false;
                },
                Some(value) => {
                    if !(*value == self.entries[i].1) {
                        assert(values_of(self@)[self.entries@[i as int].0@] != values_of(
                            other@,
                        )[self.entries@[i as int].0@]);
                        return false;
                    }
                },
            }
            i += 1;
        }
        let mut k: usize = 0;
        while k < other.entries.len()
            invariant
                k <= other.entries@.len(),
                other.keys_differ(),
                forall|j: int| 0 <= j < k ==> self@.contains_key(#[trigger] other.entries@[j].0@),
            decreases other.entries@.len() - k,
        {
            proof {
                other.lemma_entry(k as int);
            }
            if !self.contains_key(other.entries[k].0.as_str()) {
                assert(values_of(other@).contains_key(other.entries@[k as int].0@));
                assert(!values_of(self@).contains_key(other.entries@[k as int].0@));
                return false;
            }
            k += 1;
        }
        proof {
            assert forall|key: Seq<char>| self@.contains_key(key) <==> other@.contains_key(key) by {
                if self.holds(key) {
                    let at = self.slot(key);
                    assert(other@.contains_key(self.entries@[at].0@));
                }
                if other.holds(key) {
                    let at = other.slot(key);
                    assert(self@.contains_key(other.entries@[at].0@));
                }
            }
            assert forall|key: Seq<char>| self@.contains_key(key) implies self@[key]@
                == other@[key]@ by {
                let at = self.slot(key);
                self.lemma_entry(at);
                assert(other@.contains_key(self.entries@[at].0@));
            }
            assert(values_of(self@) =~= values_of(other@));
        }
        true
    }
}

} // verus!
