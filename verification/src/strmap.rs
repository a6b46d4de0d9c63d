//! A small map keyed by text, kept as a list of entries. A later entry with
//! the same key shadows an earlier one; the operations never leave two.
//!
//! The standard hash map is specified only for keys whose hashing is known
//! to agree with their equality, which is not known of texts; so the maps
//! that the ledger keys by text state and prove their own contents here.

use vstd::prelude::*;

verus! {

/// One entry of a [`StrMap`].
#[derive(Clone, Debug, PartialEq)]
pub struct StrEntry<V> {
    pub key: String,
    pub value: V,
}

/// A map from text to `V`.
#[derive(Clone, Debug, PartialEq)]
pub struct StrMap<V> {
    pub entries: Vec<StrEntry<V>>,
}

/// The map that a list of entries stands for.
pub open spec fn model_of<V>(s: Seq<StrEntry<V>>) -> Map<Seq<char>, V>
    decreases s.len(),
{
    if s.len() == 0 {
        Map::empty()
    } else {
        model_of(s.drop_last()).insert(s.last().key@, s.last().value)
    }
}

/// Whether no two entries of the list share a key.
pub open spec fn distinct_keys<V>(s: Seq<StrEntry<V>>) -> bool {
    forall|i: int, j: int| 0 <= i < j < s.len() ==> s[i].key@ != s[j].key@
}

/// A list without an entry for `k` stands for a map without `k`.
pub proof fn lemma_model_absent<V>(s: Seq<StrEntry<V>>, k: Seq<char>)
    requires
        forall|j: int| 0 <= j < s.len() ==> s[j].key@ != k,
    ensures
        !model_of(s).contains_key(k),
    decreases s.len(),
{
    if s.len() > 0 {
        lemma_model_absent(s.drop_last(), k);
    }
}

/// The last entry for `k` decides what the map holds at `k`.
pub proof fn lemma_model_last_wins<V>(s: Seq<StrEntry<V>>, k: Seq<char>, idx: int)
    requires
        0 <= idx < s.len(),
        s[idx].key@ == k,
        forall|j: int| idx < j < s.len() ==> s[j].key@ != k,
    ensures
        model_of(s).contains_key(k),
        model_of(s)[k] == s[idx].value,
    decreases s.len(),
{
    if idx < s.len() - 1 {
        lemma_model_last_wins(s.drop_last(), k, idx);
    }
}

/// Taking out one entry for `k` changes the map at `k` only.
pub proof fn lemma_model_remove_entry<V>(s: Seq<StrEntry<V>>, k: Seq<char>, idx: int)
    requires
        0 <= idx < s.len(),
        s[idx].key@ == k,
    ensures
        model_of(s.remove(idx)).remove(k) == model_of(s).remove(k),
    decreases s.len(),
{
    if idx == s.len() - 1 {
        assert(s.remove(idx) =~= s.drop_last());
        assert(model_of(s.drop_last()).insert(k, s.last().value).remove(k) =~= model_of(
            s.drop_last(),
        ).remove(k));
    } else {
        lemma_model_remove_entry(s.drop_last(), k, idx);
        assert(s.remove(idx).drop_last() =~= s.drop_last().remove(idx));
        assert(s.remove(idx).last() == s.last());
        let a = model_of(s.drop_last().remove(idx));
        let b = model_of(s.drop_last());
        assert forall|x: Seq<char>| x != k implies (#[trigger] a.contains_key(x)
            == b.contains_key(x)) by {
            assert(a.remove(k).contains_key(x) == a.contains_key(x));
            assert(b.remove(k).contains_key(x) == b.contains_key(x));
        }
        assert forall|x: Seq<char>| x != k && a.contains_key(x) implies #[trigger] a[x] == b[x] by {
            assert(a.remove(k)[x] == a[x]);
            assert(b.remove(k)[x] == b[x]);
        }
        assert(a.insert(s.last().key@, s.last().value).remove(k) =~= b.insert(
            s.last().key@,
            s.last().value,
        ).remove(k));
    }
}

impl<V> View for StrMap<V> {
    type V = Map<Seq<char>, V>;

    open spec fn view(&self) -> Map<Seq<char>, V> {
        model_of(self.entries@)
    }
}

impl<V> StrMap<V> {
    /// Whether no key is held twice.
    pub open spec fn wf(&self) -> bool {
        distinct_keys(self.entries@)
    }

    /// The empty map.
    pub fn new() -> (m: Self)
        ensures
            m@ == Map::<Seq<char>, V>::empty(),
            m.wf(),
    {
        StrMap { entries: Vec::new() }
    }

    /// The value held for `key`, if any.
    pub fn get(&self, key: &String) -> (found: Option<&V>)
        ensures
            found is Some <==> self@.contains_key(key@),
            found matches Some(v) ==> *v == self@[key@],
    {
        let mut i: usize = self.entries.len();
        while i > 0
            invariant
                i <= self.entries.len(),
                forall|j: int| i <= j < self.entries.len() ==> self.entries@[j].key@ != key@,
            decreases i,
        {
            i = i - 1;
            if self.entries[i].key == *key {
                proof {
                    lemma_model_last_wins(self.entries@, key@, i as int);
                }
                return Some(&self.entries[i].value);
            }
        }
        proof {
            lemma_model_absent(self.entries@, key@);
        }
        None
    }

    /// Whether a value is held for `key`.
    pub fn contains_key(&self, key: &String) -> (held: bool)
        ensures
            held == self@.contains_key(key@),
    {
        self.get(key).is_some()
    }

    /// Takes out whatever is held for `key`.
    pub fn remove(&mut self, key: &String)
        ensures
            final(self)@ == old(self)@.remove(key@),
            old(self).wf() ==> final(self).wf(),
    {
        let mut i: usize = 0;
        while i < self.entries.len()
            invariant
                i <= self.entries.len(),
                forall|j: int| 0 <= j < i ==> self.entries@[j].key@ != key@,
                model_of(self.entries@).remove(key@) == old(self)@.remove(key@),
                old(self).wf() ==> distinct_keys(self.entries@),
            decreases self.entries.len() - i,
        {
            if self.entries[i].key == *key {
                proof {
                    lemma_model_remove_entry(self.entries@, key@, i as int);
                }
                self.entries.remove(i);
            } else {
                i = i + 1;
            }
        }
        proof {
            lemma_model_absent(self.entries@, key@);
            assert(model_of(self.entries@).remove(key@) =~= model_of(self.entries@));
        }
    }

    /// Holds `value` for `key`, in place of whatever was held for it.
    pub fn insert(&mut self, key: String, value: V)
        ensures
            final(self)@ == old(self)@.insert(key@, value),
            old(self).wf() ==> final(self).wf(),
    {
        self.remove(&key);
        let ghost before = self.entries@;
        proof {
            if old(self).wf() {
                assert forall|j: int| 0 <= j < before.len() implies before[j].key@ != key@ by {
                    if before[j].key@ == key@ {
                        lemma_model_last_wins_exists(before, key@, j);
                    }
                }
            }
        }
        let entry = StrEntry { key, value };
        self.entries.push(entry);
        proof {
            assert(self.entries@.drop_last() =~= before);
            assert(model_of(before).insert(key@, value) =~= old(self)@.insert(key@, value));
        }
    }
}

/// A list with an entry for `k` stands for a map with `k`.
pub proof fn lemma_model_last_wins_exists<V>(s: Seq<StrEntry<V>>, k: Seq<char>, idx: int)
    requires
        0 <= idx < s.len(),
        s[idx].key@ == k,
    ensures
        model_of(s).contains_key(k),
    decreases s.len(),
{
    if s.last().key@ != k {
        lemma_model_last_wins_exists(s.drop_last(), k, idx);
    }
}

} // verus!
