//! Registered accounts keyed by account ID hash.

use crate::account::Account;
use vstd::prelude::*;

verus! {

/// accounts keyed by account ID hash, each key at most once
pub struct AccountMap {
    entries: Vec<(crate::hash::Hash, Account)>,
}

impl AccountMap {
    pub closed spec fn key_at(self, i: int) -> Seq<u8> {
        self.entries@[i].0.key()
    }

    /// no key occurs twice
    pub closed spec fn keys_unique(self) -> bool {
        forall|i: int, j: int|
            0 <= i < self.entries@.len() && 0 <= j < self.entries@.len() && i != j ==> #[trigger] self.key_at(i)
                != #[trigger] self.key_at(j)
    }

    /// no key occurs twice, and the map has as many keys as entries
    pub closed spec fn wf(self) -> bool {
        &&& self.keys_unique()
        &&& self.view().dom().finite()
        &&& self.view().dom().len() == self.entries@.len()
    }

    pub closed spec fn has_key(self, k: Seq<u8>) -> bool {
        exists|i: int| 0 <= i < self.entries@.len() && #[trigger] self.key_at(i) == k
    }

    pub closed spec fn view(self) -> Map<Seq<u8>, Account> {
        Map::new(
            |k: Seq<u8>| self.has_key(k),
            |k: Seq<u8>|
                self.entries@[choose|i: int| 0 <= i < self.entries@.len() && #[trigger] self.key_at(i) == k].1,
        )
    }

    proof fn lemma_at(self, i: int)
        requires
            self.keys_unique(),
            0 <= i < self.entries@.len(),
        ensures
            self.view().contains_key(self.key_at(i)),
            self.view()[self.key_at(i)] == self.entries@[i].1,
    {
        let k = self.key_at(i);
        assert(self.has_key(k));
        let j = choose|j: int| 0 <= j < self.entries@.len() && #[trigger] self.key_at(j) == k;
        assert(j == i);
    }

    /// the number of accounts fits in a usize
    pub proof fn lemma_len_bounded(self)
        requires
            self.wf(),
        ensures
            self.view().dom().finite(),
            self.view().dom().len() <= usize::MAX,
    {
        assert(self.entries.len() == self.entries@.len());
    }

    /// a copy of the map, entry by entry
    pub fn copy(&self) -> (r: Self)
        requires
            self.wf(),
        ensures
            r.wf(),
            r.view() == self.view(),
    {
        let mut entries: Vec<(crate::hash::Hash, Account)> = Vec::new();
        let mut i: usize = 0;
        while i < self.entries.len()
            invariant
                0 <= i <= self.entries@.len(),
                entries@ == self.entries@.subrange(0, i as int),
            decreases self.entries@.len() - i,
        {
            entries.push(self.entries[i]);
            i = i + 1;
            assert(entries@ =~= self.entries@.subrange(0, i as int));
        }
        assert(entries@ =~= self.entries@);
        let r = AccountMap { entries };
        assert(r.entries@ == self.entries@);
        assert forall|i: int| #[trigger] r.key_at(i) == self.key_at(i) by {}
        assert forall|k: Seq<u8>| #[trigger] r.has_key(k) == self.has_key(k) by {
            if r.has_key(k) {
                let i = choose|i: int| 0 <= i < r.entries@.len() && #[trigger] r.key_at(i) == k;
                assert(self.key_at(i) == k);
            }
            if self.has_key(k) {
                let i = choose|i: int| 0 <= i < self.entries@.len() && #[trigger] self.key_at(i) == k;
                assert(r.key_at(i) == k);
            }
        }
        assert(r.keys_unique());
        assert forall|k: Seq<u8>| #[trigger] r.view().contains_key(k) implies r.view()[k] == self.view()[k] by {
            let i = choose|i: int| 0 <= i < self.entries@.len() && #[trigger] self.key_at(i) == k;
            assert(r.key_at(i) == k);
            self.lemma_at(i);
            r.lemma_at(i);
        }
        assert(r.view() =~= self.view());
        r
    }

    pub fn new() -> (r: Self)
        ensures
            r.wf(),
            r.view() == Map::<Seq<u8>, Account>::empty(),
    {
        let r = AccountMap { entries: Vec::new() };
        assert(r.view() =~= Map::<Seq<u8>, Account>::empty());
        assert(r.view().dom() =~= Set::<Seq<u8>>::empty());
        r
    }

    fn find(&self, k: &crate::hash::Hash) -> (r: Option<usize>)
        requires
            self.wf(),
        ensures
            match r {
                Some(i) => i < self.entries@.len() && self.key_at(i as int) == k.key(),
                None => !self.view().contains_key(k.key()),
            },
    {
        let mut i: usize = 0;
        while i < self.entries.len()
            invariant
                0 <= i <= self.entries@.len(),
                forall|j: int| 0 <= j < i ==> #[trigger] self.key_at(j) != k.key(),
            decreases self.entries@.len() - i,
        {
            if self.entries[i].0.equals(k) {
                return Some(i);
            }
            i = i + 1;
        }
        None
    }

    pub fn contains_key(&self, k: &crate::hash::Hash) -> (r: bool)
        requires
            self.wf(),
        ensures
            r == self.view().contains_key(k.key()),
    {
        match self.find(k) {
            Some(i) => {
                proof {
                    self.lemma_at(i as int);
                }
                true
            },
            None => false,
        }
    }

    pub fn get(&self, k: &crate::hash::Hash) -> (r: Option<Account>)
        requires
            self.wf(),
        ensures
            r == (if self.view().contains_key(k.key()) {
                Some(self.view()[k.key()])
            } else {
                None
            }),
    {
        match self.find(k) {
            Some(i) => {
                proof {
                    self.lemma_at(i as int);
                }
                Some(self.entries[i].1)
            },
            None => None,
        }
    }

    /// inserts the account, replacing and returning any previous account under the key
    pub fn insert(&mut self, k: &crate::hash::Hash, account: Account) -> (r: Option<Account>)
        requires
            old(self).wf(),
        ensures
            final(self).wf(),
            final(self).view() == old(self).view().insert(k.key(), account),
            r == (if old(self).view().contains_key(k.key()) {
                Some(old(self).view()[k.key()])
            } else {
                None
            }),
    {
        let ghost old_map = *self;
        match self.find(k) {
            Some(i) => {
                proof {
                    old_map.lemma_at(i as int);
                }
                let previous = self.entries[i].1;
                self.entries.set(i, (*k, account));
                assert forall|a: int, b: int|
                    0 <= a < self.entries@.len() && 0 <= b < self.entries@.len() && a != b implies #[trigger] self.key_at(a)
                    != #[trigger] self.key_at(b) by {
                    assert(old_map.key_at(a) != old_map.key_at(b));
                }
                assert forall|key: Seq<u8>| self.has_key(key) <==> old_map.has_key(key) by {
                    if self.has_key(key) {
                        let j = choose|j: int| 0 <= j < self.entries@.len() && #[trigger] self.key_at(j) == key;
                        assert(old_map.key_at(j) == key);
                    }
                    if old_map.has_key(key) {
                        let j = choose|j: int| 0 <= j < old_map.entries@.len() && #[trigger] old_map.key_at(j) == key;
                        assert(self.key_at(j) == key);
                    }
                }
                assert forall|key: Seq<u8>| self.has_key(key) implies self.view()[key] == old_map.view().insert(k.key(), account)[key] by {
                    let j = choose|j: int| 0 <= j < self.entries@.len() && #[trigger] self.key_at(j) == key;
                    self.lemma_at(j);
                    if j != i as int {
                        old_map.lemma_at(j);
                    }
                }
                assert(self.view() =~= old_map.view().insert(k.key(), account));
                assert(self.view().dom() =~= old_map.view().dom());
                Some(previous)
            },
            None => {
                self.entries.push((*k, account));
                let ghost n: int = self.entries@.len() - 1;
                assert forall|a: int, b: int|
                    0 <= a < self.entries@.len() && 0 <= b < self.entries@.len() && a != b implies #[trigger] self.key_at(a)
                    != #[trigger] self.key_at(b) by {
                    if a < n && b < n {
                        assert(old_map.key_at(a) != old_map.key_at(b));
                    } else if a < n {
                        assert(old_map.key_at(a) == self.key_at(a));
                        assert(!old_map.has_key(k.key()));
                    } else if b < n {
                        assert(old_map.key_at(b) == self.key_at(b));
                        assert(!old_map.has_key(k.key()));
                    }
                }
                assert forall|key: Seq<u8>| self.has_key(key) <==> (old_map.has_key(key) || key == k.key()) by {
                    if self.has_key(key) {
                        let j = choose|j: int| 0 <= j < self.entries@.len() && #[trigger] self.key_at(j) == key;
                        if j < n {
                            assert(old_map.key_at(j) == key);
                        }
                    }
                    if old_map.has_key(key) {
                        let j = choose|j: int| 0 <= j < old_map.entries@.len() && #[trigger] old_map.key_at(j) == key;
                        assert(self.key_at(j) == key);
                    }
                    if key == k.key() {
                        assert(self.key_at(n) == key);
                    }
                }
                assert forall|key: Seq<u8>| self.has_key(key) implies self.view()[key] == old_map.view().insert(k.key(), account)[key] by {
                    let j = choose|j: int| 0 <= j < self.entries@.len() && #[trigger] self.key_at(j) == key;
                    self.lemma_at(j);
                    if j < n {
                        old_map.lemma_at(j);
                    }
                }
                assert(self.view() =~= old_map.view().insert(k.key(), account));
                assert(self.view().dom() =~= old_map.view().dom().insert(k.key()));
                None
            },
        }
    }

    /// removes and returns the account under the key, if any
    pub fn remove(&mut self, k: &crate::hash::Hash) -> (r: Option<Account>)
        requires
            old(self).wf(),
        ensures
            final(self).wf(),
            final(self).view() == old(self).view().remove(k.key()),
            r == (if old(self).view().contains_key(k.key()) {
                Some(old(self).view()[k.key()])
            } else {
                None
            }),
    {
        let ghost old_map = *self;
        match self.find(k) {
            Some(i) => {
                proof {
                    old_map.lemma_at(i as int);
                }
                let (_, previous) = self.entries.remove(i);
                let ghost ii = i as int;
                assert forall|j: int| 0 <= j < self.entries@.len() implies #[trigger] self.key_at(j)
                    == old_map.key_at(if j < ii { j } else { j + 1 }) by {}
                assert forall|a: int, b: int|
                    0 <= a < self.entries@.len() && 0 <= b < self.entries@.len() && a != b implies #[trigger] self.key_at(a)
                    != #[trigger] self.key_at(b) by {
                    let a2 = if a < ii { a } else { a + 1 };
                    let b2 = if b < ii { b } else { b + 1 };
                    assert(old_map.key_at(a2) != old_map.key_at(b2));
                }
                assert forall|key: Seq<u8>| self.has_key(key) <==> (old_map.has_key(key) && key != k.key()) by {
                    if self.has_key(key) {
                        let j = choose|j: int| 0 <= j < self.entries@.len() && #[trigger] self.key_at(j) == key;
                        let j2 = if j < ii { j } else { j + 1 };
                        assert(old_map.key_at(j2) == key);
                        assert(j2 != ii);
                    }
                    if old_map.has_key(key) && key != k.key() {
                        let j = choose|j: int| 0 <= j < old_map.entries@.len() && #[trigger] old_map.key_at(j) == key;
                        assert(j != ii);
                        let j1 = if j < ii { j } else { j - 1 };
                        assert(self.key_at(j1) == key);
                    }
                }
                assert forall|key: Seq<u8>| self.has_key(key) implies self.view()[key] == old_map.view()[key] by {
                    let j = choose|j: int| 0 <= j < self.entries@.len() && #[trigger] self.key_at(j) == key;
                    self.lemma_at(j);
                    let j2 = if j < ii { j } else { j + 1 };
                    old_map.lemma_at(j2);
                }
                assert(self.view() =~= old_map.view().remove(k.key()));
                assert(self.view().dom() =~= old_map.view().dom().remove(k.key()));
                Some(previous)
            },
            None => {
                assert(self.view() =~= old_map.view().remove(k.key()));
                None
            },
        }
    }
}

} // verus!
