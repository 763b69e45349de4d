//! Association tables keyed by values that can be compared for equality.
use vstd::prelude::*;

verus! {

/// A value that can be copied into a new value with the same view.
pub trait Duplicate: View + Sized {
    /// Returns a value with the same view.
    fn duplicate(&self) -> (r: Self)
        ensures
            r@ == self@,
    ;
}

/// A key type whose equality in compiled code agrees with equality of its view.
pub trait TableKey: Duplicate {
    /// Compares two keys.
    fn same_key(&self, other: &Self) -> (r: bool)
        ensures
            r == (self@ == other@),
    ;
}

/// No key occurs twice in the list of entries.
pub open spec fn distinct_keys<K: View, V>(entries: Seq<(K, V)>) -> bool {
    forall|i: int, j: int|
        0 <= i < j < entries.len() ==> #[trigger] entries[i].0@ != #[trigger] entries[j].0@
}

/// Entry `i` of the list holds key `k`.
pub open spec fn key_at<K: View, V>(entries: Seq<(K, V)>, k: K::V, i: int) -> bool {
    0 <= i < entries.len() && entries[i].0@ == k
}

/// The map that a list of entries stands for.
pub open spec fn entries_map<K: View, V: View>(entries: Seq<(K, V)>) -> Map<K::V, V::V> {
    Map::new(
        |k: K::V| exists|i: int| key_at(entries, k, i),
        |k: K::V| entries[choose|i: int| key_at(entries, k, i)].1@,
    )
}

proof fn lemma_entry_in_map<K: View, V: View>(entries: Seq<(K, V)>, k: K::V, i: int)
    requires
        distinct_keys(entries),
        key_at(entries, k, i),
    ensures
        entries_map(entries).contains_key(k),
        entries_map(entries)[k] == entries[i].1@,
{
    let j = choose|j: int| key_at(entries, k, j);
    assert(key_at(entries, k, j));
    if i < j {
        assert(entries[i].0@ != entries[j].0@);
    } else if j < i {
        assert(entries[j].0@ != entries[i].0@);
    }
}

/// A finite map from keys to values, kept as a list of entries in insertion order
/// with no key occurring twice.
///
/// The context keys its maps by hashes and out points. vstd specifies
/// `std::collections::HashMap` only for key types known to obey its hash table key
/// model (`obeys_key_model`), which vstd grants to primitive integers, `bool` and their
/// boxes; for other keys it has to be assumed, so a `HashMap` keyed by `[u8; 32]` would
/// give no usable contract here. The table relies instead on `TableKey::same_key`,
/// whose agreement with equality of views each key type proves.
pub struct Table<K: TableKey, V: View> {
    entries: Vec<(K, V)>,
}

impl<K: TableKey, V: View> View for Table<K, V> {
    type V = Map<K::V, V::V>;

    closed spec fn view(&self) -> Map<K::V, V::V> {
        entries_map(self.entries@)
    }
}

impl<K: TableKey, V: Duplicate> Table<K, V> {
    /// Returns a table with the same contents.
    pub fn duplicate(&self) -> (r: Self)
        ensures
            r@ == self@,
    {
        proof { use_type_invariant(self); }
        let mut entries: Vec<(K, V)> = Vec::new();
        let mut i: usize = 0;
        while i < self.entries.len()
            invariant
                i <= self.entries@.len(),
                entries@.len() == i,
                distinct_keys(self.entries@),
                forall|j: int| 0 <= j < i ==> #[trigger] entries@[j].0@ == self.entries@[j].0@
                    && entries@[j].1@ == self.entries@[j].1@,
            decreases self.entries@.len() - i,
        {
            let k = self.entries[i].0.duplicate();
            let v = self.entries[i].1.duplicate();
            entries.push((k, v));
            i = i + 1;
        }
        let ghost a = entries@;
        let ghost b = self.entries@;
        proof {
            assert(distinct_keys(a)) by {
                assert forall|x: int, y: int| 0 <= x < y < a.len() implies
                    #[trigger] a[x].0@ != #[trigger] a[y].0@ by {
                    assert(b[x].0@ != b[y].0@);
                }
            }
            assert forall|k: K::V| #[trigger] entries_map(a).contains_key(k)
                == entries_map(b).contains_key(k)
                && (entries_map(a).contains_key(k) ==> entries_map(a)[k] == entries_map(b)[k]) by {
                if entries_map(a).contains_key(k) {
                    let j = choose|j: int| key_at(a, k, j);
                    assert(key_at(a, k, j));
                    assert(key_at(b, k, j));
                    lemma_entry_in_map(a, k, j);
                    lemma_entry_in_map(b, k, j);
                }
                if entries_map(b).contains_key(k) {
                    let j = choose|j: int| key_at(b, k, j);
                    assert(key_at(b, k, j));
                    assert(key_at(a, k, j));
                }
            }
            assert(entries_map(a).dom() =~= entries_map(b).dom());
            assert(entries_map(a) =~= entries_map(b));
        }
        Table { entries }
    }
}

impl<K: TableKey, V: View> Table<K, V> {
    #[verifier::type_invariant]
    closed spec fn keys_distinct(self) -> bool {
        distinct_keys(self.entries@)
    }

    /// An empty table.
    pub fn new() -> (t: Self)
        ensures
            t@ == Map::<K::V, V::V>::empty(),
    {
        let t = Table { entries: Vec::new() };
        assert(t@ =~= Map::<K::V, V::V>::empty());
        t
    }

    /// Finds the position of the entry with the given key.
    fn position(&self, key: &K) -> (r: Option<usize>)
        ensures
            r matches Some(i) ==> key_at(self.entries@, key@, i as int),
            r is None ==> forall|j: int| 0 <= j < self.entries@.len() ==> self.entries@[j].0@ != key@,
            r is None ==> !self@.contains_key(key@),
    {
        let mut i: usize = 0;
        while i < self.entries.len()
            invariant
                i <= self.entries@.len(),
                forall|j: int| 0 <= j < i ==> self.entries@[j].0@ != key@,
            decreases self.entries@.len() - i,
        {
            if self.entries[i].0.same_key(key) {
                return Some(i);
            }
            i = i + 1;
        }
        assert(!self@.contains_key(key@)) by {
            if exists|j: int| key_at(self.entries@, key@, j) {
                let j = choose|j: int| key_at(self.entries@, key@, j);
                assert(self.entries@[j].0@ != key@);
            }
        }
        None
    }

    /// Looks a key up.
    pub fn get(&self, key: &K) -> (r: Option<&V>)
        ensures
            r is Some <==> self@.contains_key(key@),
            r matches Some(v) ==> v@ == self@[key@],
    {
        proof { use_type_invariant(self); }
        match self.position(key) {
            Some(i) => {
                proof { lemma_entry_in_map(self.entries@, key@, i as int); }
                Some(&self.entries[i].1)
            },
            None => None,
        }
    }

    /// The entries of the table, in insertion order; no key occurs twice among them.
    pub fn entries(&self) -> (r: &Vec<(K, V)>)
        ensures
            entries_map(r@) == self@,
            distinct_keys(r@),
    {
        proof { use_type_invariant(self); }
        &self.entries
    }

    /// Whether the key is present.
    pub fn contains_key(&self, key: &K) -> (r: bool)
        ensures
            r == self@.contains_key(key@),
    {
        proof { use_type_invariant(self); }
        match self.position(key) {
            Some(i) => {
                proof { lemma_entry_in_map(self.entries@, key@, i as int); }
                true
            },
            None => false,
        }
    }

    /// Sets the value of a key, replacing any earlier value.
    pub fn insert(&mut self, key: K, value: V)
        ensures
            final(self)@ == old(self)@.insert(key@, value@),
    {
        proof { use_type_invariant(&*self); }
        let pos = self.position(&key);
        let ghost kv = key@;
        let ghost vv = value@;
        let mut entries: Vec<(K, V)> = Vec::new();
        std::mem::swap(&mut entries, &mut self.entries);
        let ghost before = entries@;
        let ghost idx: int;
        match pos {
            Some(i) => {
                entries.set(i, (key, value));
                proof { idx = i as int; }
            },
            None => {
                entries.push((key, value));
                proof { idx = before.len() as int; }
            },
        }
        let ghost after = entries@;
        proof {
            assert(after[idx].0@ == kv && after[idx].1@ == vv);
            assert(forall|j: int| 0 <= j < after.len() && j != idx ==> after[j] == before[j]);
            assert(distinct_keys(after)) by {
                assert forall|i: int, j: int| 0 <= i < j < after.len() implies
                    #[trigger] after[i].0@ != #[trigger] after[j].0@ by {
                    if i != idx && j != idx {
                        assert(before[i].0@ != before[j].0@);
                    } else if i == idx {
                        if pos is Some {
                            assert(before[i].0@ != before[j].0@);
                        }
                    } else {
                        if pos is Some {
                            assert(before[i].0@ != before[j].0@);
                        }
                    }
                }
            }
            lemma_entry_in_map(after, kv, idx);
            let m_after = entries_map(after);
            let m_want = entries_map(before).insert(kv, vv);
            assert forall|k: K::V| k != kv implies
                (#[trigger] m_after.contains_key(k) == m_want.contains_key(k)
                && (m_after.contains_key(k) ==> m_after[k] == m_want[k])) by {
                if entries_map(after).contains_key(k) {
                    let j = choose|j: int| key_at(after, k, j);
                    assert(key_at(after, k, j));
                    assert(j != idx);
                    lemma_entry_in_map(after, k, j);
                    lemma_entry_in_map(before, k, j);
                }
                if entries_map(before).contains_key(k) {
                    let j = choose|j: int| key_at(before, k, j);
                    assert(key_at(before, k, j));
                    if pos is Some {
                        assert(j != idx);
                    }
                    assert(after[j] == before[j]);
                    assert(key_at(after, k, j));
                }
            }
            assert(m_after.dom() =~= m_want.dom());
            assert(m_after =~= m_want);
        }
        self.entries = entries;
    }
}

} // verus!
