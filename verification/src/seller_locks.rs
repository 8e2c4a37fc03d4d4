//! Per-seller locks: a small map from an address to the identifier that holds
//! the lock.

use vstd::prelude::*;
use crate::address::Address;

verus! {

/// One lock: `holder` is bound to the record `id`.
#[derive(Clone, Copy, Debug, PartialEq, Eq, Structural)]
pub struct LockEntry {
    pub holder: Address,
    pub id: u64,
}

/// The map that a list of entries stands for. A later entry for an address
/// replaces an earlier one.
pub open spec fn entries_map(entries: Seq<LockEntry>) -> Map<Address, u64>
    decreases entries.len(),
{
    if entries.len() == 0 {
        Map::empty()
    } else {
        entries_map(entries.drop_last()).insert(entries.last().holder, entries.last().id)
    }
}

/// A set of locks, each held by one address.
#[derive(Debug)]
pub struct SellerLocks {
    pub entries: Vec<LockEntry>,
}

impl View for SellerLocks {
    type V = Map<Address, u64>;

    open spec fn view(&self) -> Map<Address, u64> {
        entries_map(self.entries@)
    }
}

impl SellerLocks {
    /// No lock at all.
    pub fn new() -> (locks: SellerLocks)
        ensures
            locks@ == Map::<Address, u64>::empty(),
    {
        SellerLocks { entries: Vec::new() }
    }

    /// The record that `holder`'s lock is bound to, if `holder` holds one.
    pub fn get(&self, holder: Address) -> (found: Option<u64>)
        ensures
            found == (if self@.contains_key(holder) {
                Some(self@[holder])
            } else {
                None
            }),
    {
        let mut found: Option<u64> = None;
        let mut i: usize = 0;
        while i < self.entries.len()
            invariant
                i <= self.entries.len(),
                found == (if entries_map(self.entries@.take(i as int)).contains_key(holder) {
                    Some(entries_map(self.entries@.take(i as int))[holder])
                } else {
                    None
                }),
            decreases self.entries.len() - i,
        {
            let entry = self.entries[i];
            proof {
                let next = self.entries@.take(i + 1);
                assert(next.drop_last() =~= self.entries@.take(i as int));
                assert(next.last() == entry);
            }
            if entry.holder == holder {
                found = Some(entry.id);
            }
            i = i + 1;
        }
        proof {
            assert(self.entries@.take(i as int) =~= self.entries@);
        }
        found
    }

    /// Whether `holder` holds a lock.
    pub fn contains(&self, holder: Address) -> (held: bool)
        ensures
            held == self@.contains_key(holder),
    {
        self.get(holder).is_some()
    }

    /// Binds `holder`'s lock to `id`, whether or not `holder` held one before.
    pub fn insert(&mut self, holder: Address, id: u64)
        ensures
            final(self)@ == old(self)@.insert(holder, id),
    {
        self.entries.push(LockEntry { holder, id });
        proof {
            assert(self.entries@.drop_last() =~= old(self).entries@);
        }
    }

    /// Releases `holder`'s lock. Nothing changes if `holder` held none.
    pub fn remove(&mut self, holder: Address)
        ensures
            final(self)@ == old(self)@.remove(holder),
    {
        let mut kept: Vec<LockEntry> = Vec::new();
        let mut i: usize = 0;
        while i < self.entries.len()
            invariant
                i <= self.entries.len(),
                entries_map(kept@) == entries_map(self.entries@.take(i as int)).remove(holder),
            decreases self.entries.len() - i,
        {
            let entry = self.entries[i];
            proof {
                let next = self.entries@.take(i + 1);
                assert(next.drop_last() =~= self.entries@.take(i as int));
                assert(next.last() == entry);
            }
            let ghost before = kept@;
            if entry.holder != holder {
                kept.push(entry);
                proof {
                    assert(kept@.drop_last() =~= before);
                    assert(entries_map(kept@) =~= entries_map(self.entries@.take(i + 1)).remove(
                        holder,
                    ));
                }
            } else {
                proof {
                    assert(entries_map(kept@) =~= entries_map(self.entries@.take(i + 1)).remove(
                        holder,
                    ));
                }
            }
            i = i + 1;
        }
        proof {
            assert(self.entries@.take(i as int) =~= self.entries@);
        }
        self.entries = kept;
    }
}

} // verus!
