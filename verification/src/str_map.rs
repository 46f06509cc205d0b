//! A finite map keyed by strings: the contract's keyed storage, held as a list
//! of entries whose keys are pairwise distinct.
use vstd::prelude::*;

verus! {

/// A map from strings to values. Its model is a `Map` from the keys' characters
/// to the values' deep views.
pub struct StrMap<V> {
    entries: Vec<(String, V)>,
}

/// `k` is the key of some entry of `entries`.
pub open spec fn has_key<V>(entries: Seq<(String, V)>, k: Seq<char>) -> bool {
    exists|i: int| 0 <= i < entries.len() && (#[trigger] entries[i]).0@ == k
}

/// No key occurs twice in `entries`.
pub open spec fn keys_distinct<V>(entries: Seq<(String, V)>) -> bool {
    forall|i: int, j: int|
        0 <= i < entries.len() && 0 <= j < entries.len() && i != j ==> (#[trigger] entries[i]).0@
            != (#[trigger] entries[j]).0@
}

/// The map that a list of entries with distinct keys stands for.
pub open spec fn entries_map<V: DeepView>(entries: Seq<(String, V)>) -> Map<Seq<char>, V::V> {
    Map::new(
        |k: Seq<char>| has_key(entries, k),
        |k: Seq<char>|
            entries[choose|i: int| 0 <= i < entries.len() && (#[trigger] entries[i]).0@ == k].1.deep_view(),
    )
}

/// With distinct keys, the map holds each entry's value at the entry's key.
pub proof fn lemma_entries_map_at<V: DeepView>(entries: Seq<(String, V)>, i: int)
    requires
        keys_distinct(entries),
        0 <= i < entries.len(),
    ensures
        entries_map(entries).contains_key(entries[i].0@),
        entries_map(entries)[entries[i].0@] == entries[i].1.deep_view(),
{
    let k = entries[i].0@;
    assert(has_key(entries, k));
    let j = choose|j: int| 0 <= j < entries.len() && (#[trigger] entries[j]).0@ == k;
    assert(entries[j].0@ == k);
}

impl<V: DeepView> View for StrMap<V> {
    type V = Map<Seq<char>, V::V>;

    closed spec fn view(&self) -> Map<Seq<char>, V::V> {
        entries_map(self.entries@)
    }
}

impl<V> StrMap<V> {
    #[verifier::type_invariant]
    closed spec fn distinct_keys(self) -> bool {
        keys_distinct(self.entries@)
    }
}

impl<V: DeepView> StrMap<V> {

    /// The empty map.
    pub fn new() -> (m: Self)
        ensures
            m@ == Map::<Seq<char>, V::V>::empty(),
    {
        let m = StrMap { entries: Vec::new() };
        assert(m@ =~= Map::<Seq<char>, V::V>::empty());
        m
    }

    /// The number of keys.
    pub fn len(&self) -> (n: usize)
        ensures
            self@.dom().finite(),
            n == self@.len(),
    {
        proof {
            use_type_invariant(self);
            self.lemma_len();
        }
        self.entries.len()
    }

    proof fn lemma_len(&self)
        requires
            keys_distinct(self.entries@),
        ensures
            self@.dom().finite(),
            self@.len() == self.entries@.len(),
    {
        let es = self.entries@;
        let keys = es.map_values(|e: (String, V)| e.0@);
        assert(self@.dom() =~= keys.to_set()) by {
            assert forall|k| self@.dom().contains(k) implies keys.to_set().contains(k) by {
                let i = choose|i: int| 0 <= i < es.len() && (#[trigger] es[i]).0@ == k;
                assert(keys[i] == k);
            }
            assert forall|k| keys.to_set().contains(k) implies self@.dom().contains(k) by {
                let i = choose|i: int| 0 <= i < keys.len() && keys[i] == k;
                assert(es[i].0@ == k);
            }
        }
        assert(keys.no_duplicates()) by {
            assert forall|i: int, j: int|
                0 <= i < keys.len() && 0 <= j < keys.len() && i != j implies keys[i] != keys[j] by {
                assert(es[i].0@ != es[j].0@);
            }
        }
        keys.unique_seq_to_set();
    }

    /// The value at `key`, if the map holds `key`.
    pub fn get(&self, key: &String) -> (r: Option<&V>)
        ensures
            r is Some <==> self@.contains_key(key@),
            r matches Some(v) ==> v.deep_view() == self@[key@],
    {
        proof {
            use_type_invariant(self);
        }
        match Self::find_in(&self.entries, key) {
            Some(i) => {
                proof {
                    lemma_entries_map_at(self.entries@, i as int);
                }
                Some(&self.entries[i].1)
            },
            None => None,
        }
    }

    /// Binds `key` to `value`, replacing any earlier value.
    pub fn insert(&mut self, key: String, value: V)
        ensures
            final(self)@ == old(self)@.insert(key@, value.deep_view()),
    {
        proof {
            use_type_invariant(&*self);
        }
        let ghost old_entries = self.entries@;
        let mut entries: Vec<(String, V)> = Vec::new();
        std::mem::swap(&mut entries, &mut self.entries);
        let ghost k = key@;
        let ghost dv = value.deep_view();
        match Self::find_in(&entries, &key) {
            Some(i) => {
                entries[i] = (key, value);
            },
            None => {
                entries.push((key, value));
            },
        }
        proof {
            let es = entries@;
            assert(keys_distinct(es));
            assert forall|k2: Seq<char>|
                #[trigger] entries_map(es).contains_key(k2) <==> entries_map(old_entries).insert(k, dv).contains_key(k2) by {
                if k2 != k {
                    if has_key(es, k2) {
                        let j = choose|j: int| 0 <= j < es.len() && (#[trigger] es[j]).0@ == k2;
                        assert(old_entries[j].0@ == k2);
                    }
                    if has_key(old_entries, k2) {
                        let j = choose|j: int| 0 <= j < old_entries.len() && (#[trigger] old_entries[j]).0@ == k2;
                        assert(es[j].0@ == k2);
                    }
                } else {
                    let j = if es.len() > old_entries.len() { old_entries.len() as int } else {
                        choose|j: int| 0 <= j < old_entries.len() && (#[trigger] old_entries[j]).0@ == k
                    };
                    assert(es[j].0@ == k);
                }
            }
            assert forall|k2: Seq<char>| #[trigger] entries_map(es).contains_key(k2) implies
                entries_map(es)[k2] == entries_map(old_entries).insert(k, dv)[k2] by {
                let j = choose|j: int| 0 <= j < es.len() && (#[trigger] es[j]).0@ == k2;
                lemma_entries_map_at(es, j);
                if k2 != k {
                    assert(old_entries[j] == es[j]);
                    lemma_entries_map_at(old_entries, j);
                }
            }
            assert(entries_map(es) =~= entries_map(old_entries).insert(k, dv));
        }
        self.entries = entries;
    }

    /// The keys of the map, each once.
    pub fn keys(&self) -> (r: Vec<String>)
        ensures
            forall|i: int| 0 <= i < r@.len() ==> self@.contains_key((#[trigger] r@[i])@),
            forall|k: Seq<char>| #[trigger] self@.contains_key(k) ==> exists|i: int| 0 <= i < r@.len() && (#[trigger] r@[i])@ == k,
            forall|i: int, j: int| 0 <= i < r@.len() && 0 <= j < r@.len() && i != j ==> (#[trigger] r@[i])@ != (#[trigger] r@[j])@,
    {
        proof {
            use_type_invariant(self);
        }
        let mut r: Vec<String> = Vec::new();
        let mut i: usize = 0;
        while i < self.entries.len()
            invariant
                keys_distinct(self.entries@),
                i <= self.entries@.len(),
                r@.len() == i,
                forall|j: int| 0 <= j < i ==> (#[trigger] r@[j])@ == self.entries@[j].0@,
            decreases self.entries@.len() - i,
        {
            r.push(self.entries[i].0.clone());
            i = i + 1;
        }
        proof {
            assert forall|j: int| 0 <= j < r@.len() implies self@.contains_key((#[trigger] r@[j])@) by {
                lemma_entries_map_at(self.entries@, j);
            }
            assert forall|k: Seq<char>| #[trigger] self@.contains_key(k) implies exists|j: int| 0 <= j < r@.len() && (#[trigger] r@[j])@ == k by {
                let j = choose|j: int| 0 <= j < self.entries@.len() && (#[trigger] self.entries@[j]).0@ == k;
                assert(r@[j]@ == k);
            }
            assert forall|a: int, b: int| 0 <= a < r@.len() && 0 <= b < r@.len() && a != b implies (#[trigger] r@[a])@ != (#[trigger] r@[b])@ by {
                assert(self.entries@[a].0@ != self.entries@[b].0@);
            }
        }
        r
    }

    fn find_in(entries: &Vec<(String, V)>, key: &String) -> (r: Option<usize>)
        ensures
            match r {
                Some(i) => i < entries@.len() && entries@[i as int].0@ == key@,
                None => !has_key(entries@, key@),
            },
    {
        let mut i: usize = 0;
        while i < entries.len()
            invariant
                i <= entries@.len(),
                forall|j: int| 0 <= j < i ==> (#[trigger] entries@[j]).0@ != key@,
            decreases entries@.len() - i,
        {
            if entries[i].0 == *key {
                return Some(i);
            }
            i = i + 1;
        }
        None
    }
}

} // verus!
