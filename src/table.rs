//! A small finite map kept as a vector of entries with distinct keys.

use crate::values::{Address, AllowanceKey, Amount};
use vstd::prelude::*;

verus! {

/// Keys that can be compared at run time.
pub trait TableKey: Copy + Sized {
    fn same_key(&self, other: &Self) -> (r: bool)
        ensures
            r == (*self == *other),
    ;
}

impl TableKey for Address {
    fn same_key(&self, other: &Self) -> (r: bool) {
        self.hi == other.hi && self.lo == other.lo
    }
}

impl TableKey for AllowanceKey {
    fn same_key(&self, other: &Self) -> (r: bool) {
        self.owner.same_key(&other.owner) && self.spender.same_key(&other.spender)
    }
}

/// The sum of the amounts held by a list of entries.
pub open spec fn sum_amounts<K>(s: Seq<(K, Amount)>) -> nat
    decreases s.len(),
{
    if s.len() == 0 {
        0
    } else {
        sum_amounts(s.drop_last()) + s.last().1@
    }
}

pub proof fn lemma_sum_push<K>(s: Seq<(K, Amount)>, e: (K, Amount))
    ensures
        sum_amounts(s.push(e)) == sum_amounts(s) + e.1@,
{
    assert(s.push(e).drop_last() =~= s);
}

pub proof fn lemma_sum_update<K>(s: Seq<(K, Amount)>, i: int, e: (K, Amount))
    requires
        0 <= i < s.len(),
    ensures
        sum_amounts(s.update(i, e)) + s[i].1@ == sum_amounts(s) + e.1@,
    decreases s.len(),
{
    let t = s.update(i, e);
    if i == s.len() - 1 {
        assert(t.drop_last() =~= s.drop_last());
    } else {
        assert(t.drop_last() =~= s.drop_last().update(i, e));
        lemma_sum_update(s.drop_last(), i, e);
    }
}

pub proof fn lemma_entry_le_sum<K>(s: Seq<(K, Amount)>, i: int)
    requires
        0 <= i < s.len(),
    ensures
        s[i].1@ <= sum_amounts(s),
    decreases s.len(),
{
    if i < s.len() - 1 {
        lemma_entry_le_sum(s.drop_last(), i);
    }
}

/// A map from keys to values; unknown keys are absent.
#[verifier::reject_recursive_types(K)]
pub(crate) struct Table<K, V> {
    pub(crate) entries: Vec<(K, V)>,
    pub(crate) contents: Ghost<Map<K, V>>,
}

impl<K, V> View for Table<K, V> {
    type V = Map<K, V>;

    closed spec fn view(&self) -> Map<K, V> {
        self.contents@
    }
}

impl<K: TableKey, V: Copy> Table<K, V> {
    /// Keys are distinct, and the entries hold exactly the map's contents.
    pub(crate) open spec fn wf(&self) -> bool {
        &&& forall|i: int, j: int|
            0 <= i < j < self.entries@.len() ==> self.entries@[i].0 != self.entries@[j].0
        &&& forall|i: int|
            0 <= i < self.entries@.len() ==> {
                &&& self@.contains_key(#[trigger] self.entries@[i].0)
                &&& self@[self.entries@[i].0] == self.entries@[i].1
            }
        &&& forall|k: K|
            #[trigger] self@.contains_key(k) ==> exists|i: int|
                0 <= i < self.entries@.len() && self.entries@[i].0 == k
    }

    pub(crate) fn new() -> (r: Self)
        ensures
            r.wf(),
            r@ == Map::<K, V>::empty(),
            r.entries@.len() == 0,
    {
        Table { entries: Vec::new(), contents: Ghost(Map::empty()) }
    }

    fn find(&self, k: &K) -> (r: Option<usize>)
        requires
            self.wf(),
        ensures
            match r {
                Some(i) => i < self.entries@.len() && self.entries@[i as int].0 == *k,
                None => !self@.contains_key(*k),
            },
    {
        let mut i: usize = 0;
        while i < self.entries.len()
            invariant
                self.wf(),
                i <= self.entries@.len(),
                forall|j: int| 0 <= j < i ==> self.entries@[j].0 != *k,
            decreases self.entries@.len() - i,
        {
            if self.entries[i].0.same_key(k) {
                return Some(i);
            }
            i = i + 1;
        }
        None
    }

    pub(crate) fn get(&self, k: &K) -> (r: Option<V>)
        requires
            self.wf(),
        ensures
            r == (if self@.contains_key(*k) {
                Some(self@[*k])
            } else {
                None
            }),
    {
        match self.find(k) {
            Some(i) => Some(self.entries[i].1),
            None => None,
        }
    }

    /// Binds `k` to `v`, replacing any earlier binding.
    pub(crate) fn set(&mut self, k: K, v: V)
        requires
            old(self).wf(),
        ensures
            final(self).wf(),
            final(self)@ == old(self)@.insert(k, v),
            old(self)@.contains_key(k) ==> exists|i: int|
                0 <= i < old(self).entries@.len() && old(self).entries@[i].0 == k
                    && final(self).entries@ == old(self).entries@.update(i, (k, v)),
            !old(self)@.contains_key(k) ==> final(self).entries@ == old(self).entries@.push(
                (k, v),
            ),
    {
        match self.find(&k) {
            Some(i) => {
                self.entries.set(i, (k, v));
            },
            None => {
                self.entries.push((k, v));
            },
        }
        self.contents = Ghost(self.contents@.insert(k, v));
        assert forall|kk: K| #[trigger] self.contents@.contains_key(kk) implies exists|i: int|
            0 <= i < self.entries@.len() && self.entries@[i].0 == kk by {
            if kk == k {
                let ghost n = self.entries@.len();
                if old(self)@.contains_key(k) {
                    let i = choose|i: int|
                        0 <= i < old(self).entries@.len() && old(self).entries@[i].0 == k;
                    assert(self.entries@[i].0 == kk);
                } else {
                    assert(self.entries@[n - 1].0 == kk);
                }
            } else {
                assert(old(self).contents@.contains_key(kk));
                let i = choose|i: int|
                    0 <= i < old(self).entries@.len() && old(self).entries@[i].0 == kk;
                assert(self.entries@[i].0 == kk);
            }
        }
    }

    /// A copy with the same entries.
    pub(crate) fn duplicate(&self) -> (r: Self)
        requires
            self.wf(),
        ensures
            r.wf(),
            r@ == self@,
            r.entries@ == self.entries@,
    {
        let mut entries: Vec<(K, V)> = Vec::new();
        let mut i: usize = 0;
        while i < self.entries.len()
            invariant
                i <= self.entries@.len(),
                entries@ == self.entries@.subrange(0, i as int),
            decreases self.entries@.len() - i,
        {
            entries.push(self.entries[i]);
            i = i + 1;
        }
        assert(entries@ =~= self.entries@);
        let r = Table { entries, contents: Ghost(self.contents@) };
        assert(r.entries@ == self.entries@ && r@ == self@);
        r
    }
}

impl<K: TableKey> Table<K, Amount> {
    /// The sum of all amounts held.
    pub(crate) open spec fn total(&self) -> nat {
        sum_amounts(self.entries@)
    }

    /// The amount bound to `k`, or zero.
    pub(crate) open spec fn amount_of(&self, k: K) -> nat {
        if self@.contains_key(k) {
            self@[k]@
        } else {
            0
        }
    }

    pub(crate) proof fn lemma_amount_le_total(&self, k: K)
        requires
            self.wf(),
        ensures
            self.amount_of(k) <= self.total(),
    {
        if self@.contains_key(k) {
            let i = choose|i: int| 0 <= i < self.entries@.len() && self.entries@[i].0 == k;
            lemma_entry_le_sum(self.entries@, i);
        }
    }

    /// Binds `k` to `v`; the total changes by the difference.
    pub(crate) fn set_amount(&mut self, k: K, v: Amount)
        requires
            old(self).wf(),
        ensures
            final(self).wf(),
            final(self)@ == old(self)@.insert(k, v),
            final(self).total() + old(self).amount_of(k) == old(self).total() + v@,
    {
        self.set(k, v);
        proof {
            if old(self)@.contains_key(k) {
                let i = choose|i: int|
                    0 <= i < old(self).entries@.len() && old(self).entries@[i].0 == k
                        && self.entries@ == old(self).entries@.update(i, (k, v));
                lemma_sum_update(old(self).entries@, i, (k, v));
            } else {
                lemma_sum_push(old(self).entries@, (k, v));
            }
        }
    }
}

} // verus!
