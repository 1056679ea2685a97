//! The account store: a mapping from identifier to policy record.
//!
//! The store is a vector of entries with pairwise-distinct keys; its
//! mathematical view is the `Map` those entries denote. An identifier without
//! an entry reads as `default_record()`.

use vstd::prelude::*;

use crate::account::{default_record, AccountId, AccountRecord};

verus! {

/// The map a sequence of key/record entries denotes: later entries win,
/// though with distinct keys the order never matters.
pub open spec fn map_of(entries: Seq<(AccountId, AccountRecord)>) -> Map<AccountId, AccountRecord>
    decreases entries.len(),
{
    if entries.len() == 0 {
        Map::empty()
    } else {
        map_of(entries.drop_last()).insert(entries.last().0, entries.last().1)
    }
}

/// Pairwise-distinct keys.
pub open spec fn distinct_keys(entries: Seq<(AccountId, AccountRecord)>) -> bool {
    forall|i: int, j: int|
        0 <= i < j < entries.len() ==> (#[trigger] entries[i]).0 != (#[trigger] entries[j]).0
}

/// An entry's key is in the map, bound to that entry's record.
proof fn lemma_map_of_entry(entries: Seq<(AccountId, AccountRecord)>, i: int)
    requires
        distinct_keys(entries),
        0 <= i < entries.len(),
    ensures
        map_of(entries).contains_key(entries[i].0),
        map_of(entries)[entries[i].0] == entries[i].1,
    decreases entries.len(),
{
    if i < entries.len() - 1 {
        lemma_map_of_entry(entries.drop_last(), i);
    }
}

/// A key no entry carries is not in the map.
proof fn lemma_map_of_absent(entries: Seq<(AccountId, AccountRecord)>, id: AccountId)
    requires
        forall|k: int| 0 <= k < entries.len() ==> (#[trigger] entries[k]).0 != id,
    ensures
        !map_of(entries).contains_key(id),
    decreases entries.len(),
{
    if entries.len() > 0 {
        lemma_map_of_absent(entries.drop_last(), id);
    }
}

/// Replacing the record of entry `i` in place is `insert` on the map.
proof fn lemma_map_of_update(entries: Seq<(AccountId, AccountRecord)>, i: int, rec: AccountRecord)
    requires
        distinct_keys(entries),
        0 <= i < entries.len(),
    ensures
        map_of(entries.update(i, (entries[i].0, rec))) == map_of(entries).insert(entries[i].0, rec),
    decreases entries.len(),
{
    let updated = entries.update(i, (entries[i].0, rec));
    if i == entries.len() - 1 {
        assert(updated.drop_last() =~= entries.drop_last());
        assert(map_of(updated) =~= map_of(entries).insert(entries[i].0, rec));
    } else {
        assert(updated.drop_last() =~= entries.drop_last().update(i, (entries[i].0, rec)));
        lemma_map_of_update(entries.drop_last(), i, rec);
        // The two inserted keys differ, so the inserts commute.
        assert(entries[i].0 != entries.last().0);
        assert(map_of(updated) =~= map_of(entries).insert(entries[i].0, rec));
    }
}

/// Appending a fresh entry is `insert` on the map.
proof fn lemma_map_of_push(entries: Seq<(AccountId, AccountRecord)>, id: AccountId, rec: AccountRecord)
    ensures
        map_of(entries.push((id, rec))) == map_of(entries).insert(id, rec),
{
    assert(entries.push((id, rec)).drop_last() =~= entries);
}

/// The account store. Its view is a `Map` from identifier to record; an
/// identifier outside the view's domain reads as `default_record()`.
pub struct AccountStore {
    entries: Vec<(AccountId, AccountRecord)>,
}

impl View for AccountStore {
    type V = Map<AccountId, AccountRecord>;

    closed spec fn view(&self) -> Map<AccountId, AccountRecord> {
        map_of(self.entries@)
    }
}

impl AccountStore {
    /// The representation keeps one entry per identifier.
    pub closed spec fn wf(self) -> bool {
        distinct_keys(self.entries@)
    }

    /// The record `id` reads as: its entry in the map, or the default.
    pub open spec fn spec_get(self, id: AccountId) -> AccountRecord {
        if self@.contains_key(id) {
            self@[id]
        } else {
            default_record()
        }
    }

    /// An empty store: every identifier reads as the default record.
    pub fn new() -> (s: AccountStore)
        ensures
            s.wf(),
            s@ == Map::<AccountId, AccountRecord>::empty(),
    {
        AccountStore { entries: Vec::new() }
    }

    /// Read the record of `id`.
    pub fn get(&self, id: AccountId) -> (r: AccountRecord)
        requires
            self.wf(),
        ensures
            r == self.spec_get(id),
    {
        let n = self.entries.len();
        for k in 0..n
            invariant
                n == self.entries@.len(),
                self.wf(),
                forall|j: int| 0 <= j < k ==> (#[trigger] self.entries@[j]).0 != id,
        {
            if self.entries[k].0 == id {
                proof {
                    lemma_map_of_entry(self.entries@, k as int);
                }
                return self.entries[k].1;
            }
        }
        proof {
            lemma_map_of_absent(self.entries@, id);
        }
        AccountRecord { whitelisted: false, risk_score: 0 }
    }

    /// Write the record of `id`, replacing any prior one.
    pub fn set(&mut self, id: AccountId, rec: AccountRecord)
        requires
            old(self).wf(),
        ensures
            final(self).wf(),
            final(self)@ == old(self)@.insert(id, rec),
    {
        let n = self.entries.len();
        for k in 0..n
            invariant
                n == self.entries@.len(),
                self.wf(),
                self.entries@ == old(self).entries@,
                forall|j: int| 0 <= j < k ==> (#[trigger] self.entries@[j]).0 != id,
        {
            if self.entries[k].0 == id {
                proof {
                    lemma_map_of_update(self.entries@, k as int, rec);
                }
                self.entries[k] = (id, rec);
                return;
            }
        }
        proof {
            lemma_map_of_push(self.entries@, id, rec);
        }
        self.entries.push((id, rec));
    }
}

} // verus!
