//! A finite map keyed by account, standing for the per-account entries that a
//! contract keeps in its storage region.

use vstd::prelude::*;
use crate::account::AccountId;

verus! {

/// Entries keyed by account. No account holds two entries.
pub struct AccountMap<V> {
    entries: Vec<(AccountId, V)>,
}

/// The map that a list of entries builds up when they are put in one after
/// the other: of two entries for one account the later stands.
pub open spec fn map_of<V>(entries: Seq<(AccountId, V)>) -> Map<AccountId, V>
    decreases entries.len(),
{
    if entries.len() == 0 {
        Map::empty()
    } else {
        map_of(entries.drop_last()).insert(entries.last().0, entries.last().1)
    }
}

/// The list holds an entry for `key` at place `i`.
pub open spec fn held_at<V>(entries: Seq<(AccountId, V)>, key: AccountId, i: int) -> bool {
    0 <= i < entries.len() && entries[i].0 == key
}

/// Place `i` is the last at which the list holds an entry for `key`.
pub open spec fn last_at<V>(entries: Seq<(AccountId, V)>, key: AccountId, i: int) -> bool {
    held_at(entries, key, i) && forall|j: int| i < j < entries.len() ==> !held_at(entries, key, j)
}

/// What `map_of` holds: the accounts of the list, each with the entry of
/// its last place in the list.
pub proof fn lemma_map_of<V>(entries: Seq<(AccountId, V)>)
    ensures
        forall|key: AccountId|
            #![trigger map_of(entries).contains_key(key)]
            map_of(entries).contains_key(key) <==> exists|i: int| held_at(entries, key, i),
        forall|key: AccountId, i: int| #[trigger]
            last_at(entries, key, i) ==> map_of(entries)[key] == entries[i].1,
    decreases entries.len(),
{
    if entries.len() > 0 {
        let head = entries.drop_last();
        let n = head.len() as int;
        let last = entries.last();
        lemma_map_of(head);
        assert forall|key: AccountId| #![trigger map_of(entries).contains_key(key)]
            map_of(entries).contains_key(key) <==> exists|i: int|
                held_at(entries, key, i) by {
            if key == last.0 {
                assert(held_at(entries, key, n));
            } else {
                if map_of(head).contains_key(key) {
                    let i = choose|i: int| held_at(head, key, i);
                    assert(held_at(entries, key, i));
                }
                if exists|i: int| held_at(entries, key, i) {
                    let i = choose|i: int| held_at(entries, key, i);
                    assert(held_at(head, key, i));
                }
            }
        }
        assert forall|key: AccountId, i: int| #[trigger] last_at(entries, key, i) implies map_of(
            entries,
        )[key] == entries[i].1 by {
            if i < n {
                assert(!held_at(entries, key, n));
                assert forall|j: int| i < j < head.len() implies !held_at(head, key, j) by {
                    assert(!held_at(entries, key, j));
                }
                assert(last_at(head, key, i));
            }
        }
    } else {
        assert forall|key: AccountId| #![trigger map_of(entries).contains_key(key)]
            !(exists|i: int| held_at(entries, key, i)) by {
        }
    }
}

/// A storage map can be worked on an entry at a time. Of a map `m`, take
/// the part that holds the entries of `accounts`. That part knows of each
/// of these accounts what `m` knows; and giving an entry to one of them in
/// the part, then writing the part back over `m`, is giving that entry in `m`.
pub proof fn lemma_part_written_back<V>(
    m: Map<AccountId, V>,
    accounts: Set<AccountId>,
    key: AccountId,
    value: V,
)
    requires
        accounts.contains(key),
    ensures
        m.restrict(accounts).contains_key(key) == m.contains_key(key),
        m.contains_key(key) ==> m.restrict(accounts)[key] == m[key],
        m.union_prefer_right(m.restrict(accounts)) == m,
        m.union_prefer_right(m.restrict(accounts).insert(key, value)) == m.insert(key, value),
{
    assert(m.union_prefer_right(m.restrict(accounts)) =~= m);
    assert(m.union_prefer_right(m.restrict(accounts).insert(key, value)) =~= m.insert(
        key,
        value,
    ));
}

impl<V> AccountMap<V> {
    #[verifier::type_invariant]
    spec fn keys_distinct(&self) -> bool {
        forall|i: int, j: int|
            0 <= i < j < self.entries.len() ==> self.entries[i].0 != self.entries[j].0
    }

    spec fn position(&self, key: AccountId) -> int {
        choose|i: int| 0 <= i < self.entries.len() && self.entries[i].0 == key
    }

    /// The map that the entries stand for.
    pub closed spec fn view(&self) -> Map<AccountId, V> {
        Map::new(
            |key: AccountId|
                exists|i: int| 0 <= i < self.entries.len() && self.entries[i].0 == key,
            |key: AccountId| self.entries[self.position(key)].1,
        )
    }

    /// A map without entries.
    pub fn new() -> (m: Self)
        ensures
            m@ == Map::<AccountId, V>::empty(),
    {
        let m = AccountMap { entries: Vec::new() };
        assert(m@ =~= Map::<AccountId, V>::empty());
        m
    }

    /// The map built up from `entries`, put in one after the other.
    pub fn from_vec(entries: Vec<(AccountId, V)>) -> (m: Self)
        ensures
            m@ == map_of(entries@),
    {
        let mut m = AccountMap::new();
        let mut rest = entries;
        let mut taken: Vec<(AccountId, V)> = Vec::new();
        let ghost n = entries@.len() as int;
        // Take the entries from the back, then put them in from the front.
        while rest.len() > 0
            invariant
                n == entries@.len(),
                rest@.len() + taken@.len() == n,
                rest@ == entries@.subrange(0, rest@.len() as int),
                forall|i: int| 0 <= i < taken@.len() ==> taken@[i] == entries@[n - 1 - i],
            decreases rest.len(),
        {
            let e = rest.pop().unwrap();
            taken.push(e);
        }
        while taken.len() > 0
            invariant
                n == entries@.len(),
                taken@.len() <= n,
                forall|i: int| 0 <= i < taken@.len() ==> taken@[i] == entries@[n - 1 - i],
                m@ == map_of(entries@.subrange(0, n - taken@.len())),
            decreases taken.len(),
        {
            let ghost k = n - taken@.len();
            let e = taken.pop().unwrap();
            proof {
                let before = entries@.subrange(0, k);
                let now = entries@.subrange(0, k + 1);
                assert(now.drop_last() =~= before);
                assert(now.last() == e);
            }
            m.insert(e.0, e.1);
        }
        assert(entries@.subrange(0, n) =~= entries@);
        m
    }

    /// The entries as a list, one for each account that holds one. Built
    /// up again, the list gives the same map.
    pub fn into_vec(self) -> (entries: Vec<(AccountId, V)>)
        ensures
            forall|i: int, j: int|
                0 <= i < j < entries.len() ==> entries[i].0 != entries[j].0,
            map_of(entries@) == self@,
    {
        proof {
            use_type_invariant(&self);
            let list = self.entries@;
            lemma_map_of(list);
            assert forall|key: AccountId| #[trigger]
                map_of(list).contains_key(key) <==> self@.contains_key(key) by {
                if map_of(list).contains_key(key) {
                    let i = choose|i: int| held_at(list, key, i);
                    assert(held_at(list, key, i));
                }
                if self@.contains_key(key) {
                    assert(held_at(list, key, self.position(key)));
                }
            }
            assert forall|key: AccountId| self@.contains_key(key) implies map_of(list)[key]
                == self@[key] by {
                let i = self.position(key);
                assert(last_at(list, key, i));
            }
            assert(map_of(list) =~= self@);
        }
        self.entries
    }

    fn find(&self, key: AccountId) -> (r: Option<usize>)
        ensures
            match r {
                Some(i) => i < self.entries.len() && self.entries[i as int].0 == key
                    && self.position(key) == i,
                None => !self@.contains_key(key),
            },
    {
        proof {
            use_type_invariant(self);
        }
        let mut i: usize = 0;
        while i < self.entries.len()
            invariant
                i <= self.entries.len(),
                self.keys_distinct(),
                forall|j: int| 0 <= j < i ==> self.entries[j].0 != key,
            decreases self.entries.len() - i,
        {
            if self.entries[i].0 == key {
                return Some(i);
            }
            i += 1;
        }
        None
    }

    /// Whether `key` holds an entry.
    pub fn contains(&self, key: AccountId) -> (r: bool)
        ensures
            r == self@.contains_key(key),
    {
        self.find(key).is_some()
    }

    /// The entry of `key`, where it holds one.
    pub fn get(&self, key: AccountId) -> (r: Option<&V>)
        ensures
            match r {
                Some(v) => self@.contains_key(key) && *v == self@[key],
                None => !self@.contains_key(key),
            },
    {
        match self.find(key) {
            Some(i) => Some(&self.entries[i].1),
            None => None,
        }
    }

    /// Gives `key` the entry `value`, in place of the one it held, if any.
    pub fn insert(&mut self, key: AccountId, value: V)
        ensures
            final(self)@ == old(self)@.insert(key, value),
    {
        proof {
            use_type_invariant(&*self);
        }
        match self.find(key) {
            Some(i) => {
                let mut entries: Vec<(AccountId, V)> = Vec::new();
                core::mem::swap(&mut self.entries, &mut entries);
                entries.set(i, (key, value));
                core::mem::swap(&mut self.entries, &mut entries);
                proof {
                    assert forall|k: AccountId| self@.contains_key(k) <==> old(self)@.insert(
                        key,
                        value,
                    ).contains_key(k) by {
                        if old(self)@.contains_key(k) {
                            let p = old(self).position(k);
                            assert(self.entries[p].0 == k);
                        }
                        if self@.contains_key(k) {
                            let p = self.position(k);
                            assert(old(self).entries[p].0 == k);
                        }
                    }
                    assert forall|k: AccountId| self@.contains_key(k) implies self@[k]
                        == old(self)@.insert(key, value)[k] by {
                        let p = self.position(k);
                        assert(old(self).entries[p].0 == k);
                        assert(old(self).position(k) == p);
                    }
                    assert(self@ =~= old(self)@.insert(key, value));
                }
            },
            None => {
                let mut entries: Vec<(AccountId, V)> = Vec::new();
                core::mem::swap(&mut self.entries, &mut entries);
                entries.push((key, value));
                core::mem::swap(&mut self.entries, &mut entries);
                proof {
                    let n = old(self).entries.len() as int;
                    assert(self.entries[n].0 == key);
                    assert forall|k: AccountId| self@.contains_key(k) <==> old(self)@.insert(
                        key,
                        value,
                    ).contains_key(k) by {
                        if old(self)@.contains_key(k) {
                            let p = old(self).position(k);
                            assert(self.entries[p].0 == k);
                        }
                        if self@.contains_key(k) {
                            let p = self.position(k);
                            if p < n {
                                assert(old(self).entries[p].0 == k);
                            }
                        }
                    }
                    assert forall|k: AccountId| self@.contains_key(k) implies self@[k]
                        == old(self)@.insert(key, value)[k] by {
                        let p = self.position(k);
                        if p < n {
                            assert(old(self).entries[p].0 == k);
                            assert(old(self).position(k) == p);
                        }
                    }
                    assert(self@ =~= old(self)@.insert(key, value));
                }
            },
        }
    }
}

} // verus!
