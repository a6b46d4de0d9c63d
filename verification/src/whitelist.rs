//! Whitelist keys and the per-stream set of (chain, address) pairs that may
//! trigger a withdrawal. A key is the pair itself, so that two keys are
//! equal only where both the chains and the addresses are.

use crate::seqs::{
    lemma_with_value_no_duplicates, lemma_without_empty, lemma_without_no_duplicates,
    lemma_without_push, with_value, without,
};
use vstd::prelude::*;
use vstd::string::*;

verus! {

/// One whitelisted party: an address on a chain.
#[derive(Clone, Debug, PartialEq)]
pub struct WhitelistEntry {
    pub chain_id: String,
    pub address: String,
}

impl View for WhitelistEntry {
    type V = (Seq<char>, Seq<char>);

    open spec fn view(&self) -> (Seq<char>, Seq<char>) {
        (self.chain_id@, self.address@)
    }
}

/// The composite key under which `(chain_id, address)` is known: the pair
/// of the two.
pub fn get_id(chain_id: String, address: String) -> (id: WhitelistEntry)
    ensures
        id@ == (chain_id@, address@),
{
    WhitelistEntry { chain_id, address }
}

/// Two keys are equal only where they are made of the same chain and the
/// same address.
pub proof fn law_keys_are_injective(a: WhitelistEntry, b: WhitelistEntry)
    requires
        a@ == b@,
    ensures
        a.chain_id@ == b.chain_id@,
        a.address@ == b.address@,
{
}

/// The parties that may withdraw from a stream, each once, in the order
/// they were added. They are kept as a list of pairs: a map keyed by text
/// has no specified contents, and the query hands the parties out in order.
#[derive(Clone, Debug, PartialEq)]
pub struct Whitelist {
    pub entries: Vec<WhitelistEntry>,
}

impl View for Whitelist {
    type V = Seq<(Seq<char>, Seq<char>)>;

    open spec fn view(&self) -> Seq<(Seq<char>, Seq<char>)> {
        self.entries@.map_values(|e: WhitelistEntry| e@)
    }
}

/// The pairs that a list of (chain, address) texts stands for.
pub open spec fn pairs_view(pairs: Seq<(String, String)>) -> Seq<(Seq<char>, Seq<char>)> {
    pairs.map_values(|p: (String, String)| (p.0@, p.1@))
}

impl Whitelist {
    /// Whether no party is listed twice.
    pub open spec fn wf(&self) -> bool {
        self@.no_duplicates()
    }

    /// The empty whitelist.
    pub fn new() -> (w: Self)
        ensures
            w@ == Seq::<(Seq<char>, Seq<char>)>::empty(),
            w.wf(),
    {
        let w = Whitelist { entries: Vec::new() };
        assert(w@ =~= Seq::<(Seq<char>, Seq<char>)>::empty());
        w
    }

    /// Whether `(chain_id, address)` is listed.
    pub fn contains(&self, chain_id: &String, address: &String) -> (listed: bool)
        ensures
            listed == self@.contains((chain_id@, address@)),
    {
        let mut i: usize = 0;
        while i < self.entries.len()
            invariant
                i <= self.entries.len(),
                forall|j: int| 0 <= j < i ==> self@[j] != (chain_id@, address@),
            decreases self.entries.len() - i,
        {
            if self.entries[i].chain_id == *chain_id && self.entries[i].address == *address {
                assert(self@[i as int] == (chain_id@, address@));
                return true;
            }
            i = i + 1;
        }
        false
    }

    /// Lists `(chain_id, address)`, unless it is listed already.
    pub fn insert(&mut self, chain_id: String, address: String)
        ensures
            final(self)@ == with_value(old(self)@, (chain_id@, address@)),
            old(self).wf() ==> final(self).wf(),
    {
        if !self.contains(&chain_id, &address) {
            self.entries.push(get_id(chain_id, address));
            assert(self@ =~= old(self)@.push((chain_id@, address@)));
        }
        proof {
            if old(self).wf() {
                lemma_with_value_no_duplicates(old(self)@, (chain_id@, address@));
            }
        }
    }

    /// Takes `(chain_id, address)` off the list.
    pub fn remove(&mut self, chain_id: &String, address: &String)
        ensures
            final(self)@ == without(old(self)@, (chain_id@, address@)),
            old(self).wf() ==> final(self).wf(),
    {
        let ghost target = (chain_id@, address@);
        let mut kept: Vec<WhitelistEntry> = Vec::new();
        let mut i: usize = 0;
        proof {
            lemma_without_empty(target);
            assert(old(self)@.take(0) =~= Seq::empty());
            assert(kept@.map_values(|e: WhitelistEntry| e@) =~= Seq::empty());
        }
        while i < self.entries.len()
            invariant
                i <= self.entries.len(),
                *self == *old(self),
                target == (chain_id@, address@),
                kept@.map_values(|e: WhitelistEntry| e@) == without(self@.take(i as int), target),
            decreases self.entries.len() - i,
        {
            let ghost before = kept@.map_values(|e: WhitelistEntry| e@);
            proof {
                assert(self@.take(i + 1) =~= self@.take(i as int).push(self@[i as int]));
                lemma_without_push(self@.take(i as int), self@[i as int], target);
            }
            if !(self.entries[i].chain_id == *chain_id && self.entries[i].address == *address) {
                let entry = WhitelistEntry {
                    chain_id: self.entries[i].chain_id.clone(),
                    address: self.entries[i].address.clone(),
                };
                kept.push(entry);
                assert(kept@.map_values(|e: WhitelistEntry| e@) =~= before.push(self@[i as int]));
            }
            i = i + 1;
        }
        proof {
            assert(self@.take(i as int) =~= self@);
            if old(self).wf() {
                lemma_without_no_duplicates(old(self)@, target);
            }
        }
        self.entries = kept;
    }

    /// The listed parties as (chain, address) texts, in order.
    pub fn pairs(&self) -> (out: Vec<(String, String)>)
        ensures
            pairs_view(out@) == self@,
    {
        let mut out: Vec<(String, String)> = Vec::new();
        let mut i: usize = 0;
        while i < self.entries.len()
            invariant
                i <= self.entries.len(),
                out@.len() == i,
                forall|j: int| 0 <= j < i ==> (out@[j].0@, out@[j].1@) == self@[j],
            decreases self.entries.len() - i,
        {
            out.push((self.entries[i].chain_id.clone(), self.entries[i].address.clone()));
            i = i + 1;
        }
        assert(pairs_view(out@) =~= self@);
        out
    }

    /// A copy of this whitelist.
    pub fn duplicate(&self) -> (copy: Self)
        ensures
            copy@ == self@,
    {
        let mut entries: Vec<WhitelistEntry> = Vec::new();
        let mut i: usize = 0;
        while i < self.entries.len()
            invariant
                i <= self.entries.len(),
                entries@.len() == i,
                forall|j: int| 0 <= j < i ==> entries@[j]@ == self@[j],
            decreases self.entries.len() - i,
        {
            entries.push(
                WhitelistEntry {
                    chain_id: self.entries[i].chain_id.clone(),
                    address: self.entries[i].address.clone(),
                },
            );
            i = i + 1;
        }
        let copy = Whitelist { entries };
        assert(copy@ =~= self@);
        copy
    }
}

} // verus!
