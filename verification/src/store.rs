//! Keyed counter store with a running aggregate.
//!
//! The store maps a key (a user or entity id) to a 64-bit count and keeps
//! the sum of all counts as a running total, updated together with the
//! per-key count. A store that has been marked poisoned (the embedding
//! program found its lock in an inconsistent state) rejects every further
//! operation instead of serving possibly corrupt state.

use vstd::prelude::*;

verus! {

/// Error returned by a store whose lock was found in an inconsistent state.
#[derive(Clone, Copy, PartialEq, Eq, Structural, Debug)]
pub enum StoreError {
    Poisoned,
}

/// Sum of the counts of a sequence of (key, count) entries.
pub closed spec fn sum_counts(s: Seq<(u64, u64)>) -> int
    decreases s.len(),
{
    if s.len() == 0 {
        0
    } else {
        sum_counts(s.drop_last()) + s.last().1
    }
}

/// The count recorded for `k`, or 0 where no entry carries `k`.
pub closed spec fn lookup(s: Seq<(u64, u64)>, k: u64) -> int
    decreases s.len(),
{
    if s.len() == 0 {
        0
    } else if s.last().0 == k {
        s.last().1 as int
    } else {
        lookup(s.drop_last(), k)
    }
}

/// No two entries carry the same key.
pub closed spec fn keys_unique(s: Seq<(u64, u64)>) -> bool {
    forall|i: int, j: int| 0 <= i < j < s.len() ==> s[i].0 != s[j].0
}

/// Process-wide keyed counter store.
pub struct CounterStore {
    entries: Vec<(u64, u64)>,
    total: u64,
    poisoned: bool,
}

/// One successful increment of `key`: the count of `key` and the aggregate
/// each grow by one, every other count is unchanged, and poisoning is
/// untouched.
pub open spec fn increments_to(pre: CounterStore, post: CounterStore, key: u64) -> bool {
    &&& post.aggregate() == pre.aggregate() + 1
    &&& post.count_of(key) == pre.count_of(key) + 1
    &&& (forall|k: u64| k != key ==> post.count_of(k) == pre.count_of(k))
    &&& post.is_poisoned() == pre.is_poisoned()
}

impl CounterStore {
    /// The aggregate: the sum of all per-key counts.
    pub closed spec fn aggregate(&self) -> int {
        self.total as int
    }

    /// The count recorded under `key` (0 where the key is absent).
    pub closed spec fn count_of(&self, key: u64) -> int {
        lookup(self.entries@, key)
    }

    /// Whether the store has been marked poisoned.
    pub closed spec fn is_poisoned(&self) -> bool {
        self.poisoned
    }

    /// Internal consistency: keys are unique and the running total equals
    /// the sum of the per-key counts.
    pub closed spec fn wf(&self) -> bool {
        &&& keys_unique(self.entries@)
        &&& self.total as int == sum_counts(self.entries@)
    }

    /// A fresh store: empty, not poisoned, aggregate 0.
    pub fn new() -> (s: CounterStore)
        ensures
            s.wf(),
            !s.is_poisoned(),
            s.aggregate() == 0,
            forall|k: u64| s.count_of(k) == 0,
    {
        CounterStore { entries: Vec::new(), total: 0, poisoned: false }
    }

    /// Adds 1 to the count of `key`, creating the key with count 1 where it
    /// is absent, and grows the aggregate by 1 in the same step. A poisoned
    /// store rejects the call and is left unchanged.
    pub fn increment(&mut self, key: u64) -> (r: Result<(), StoreError>)
        requires
            old(self).wf(),
            old(self).aggregate() < u64::MAX,
        ensures
            final(self).wf(),
            old(self).is_poisoned() ==> r == Err::<(), StoreError>(StoreError::Poisoned)
                && *final(self) == *old(self),
            !old(self).is_poisoned() ==> r == Ok::<(), StoreError>(())
                && increments_to(*old(self), *final(self), key),
    {
        if self.poisoned {
            return Err(StoreError::Poisoned);
        }
        let n: usize = self.entries.len();
        let mut i: usize = 0;
        while i < n
            invariant
                *self == *old(self),
                self.wf(),
                !self.is_poisoned(),
                self.aggregate() < u64::MAX,
                n == self.entries@.len(),
                i <= n,
                forall|j: int| 0 <= j < i ==> self.entries@[j].0 != key,
            decreases n - i,
        {
            if self.entries[i].0 == key {
                let c: u64 = self.entries[i].1;
                proof {
                    lemma_lookup_at_index(self.entries@, i as int);
                    lemma_lookup_le_sum(self.entries@, key);
                }
                let ghost s0 = self.entries@;
                self.entries.set(i, (key, c + 1));
                self.total = self.total + 1;
                proof {
                    lemma_sum_update(s0, i as int, (key, (c + 1) as u64));
                    lemma_lookup_update(s0, i as int, (key, (c + 1) as u64), key);
                    assert forall|k: u64| k != key implies self.count_of(k) == old(self).count_of(k) by {
                        lemma_lookup_update(s0, i as int, (key, (c + 1) as u64), k);
                    }
                    assert forall|p: int, q: int| 0 <= p < q < self.entries@.len()
                        implies self.entries@[p].0 != self.entries@[q].0 by {
                        assert(s0[p].0 != s0[q].0);
                    }
                }
                return Ok(());
            }
            i += 1;
        }
        proof {
            lemma_lookup_absent(self.entries@, key);
            lemma_sum_nonneg(self.entries@);
        }
        let ghost s0 = self.entries@;
        self.entries.push((key, 1));
        self.total = self.total + 1;
        proof {
            assert(self.entries@.drop_last() =~= s0);
            assert(self.entries@.last() == (key, 1u64));
            assert forall|k: u64| k != key implies self.count_of(k) == old(self).count_of(k) by {
                assert(lookup(self.entries@, k) == lookup(s0, k));
            }
            assert forall|p: int, q: int| 0 <= p < q < self.entries@.len()
                implies self.entries@[p].0 != self.entries@[q].0 by {
                if q < s0.len() {
                    assert(s0[p].0 != s0[q].0);
                } else {
                    assert(s0[p].0 != key);
                }
            }
        }
        Ok(())
    }

    /// The current aggregate, reflecting every increment that completed
    /// before the call. A poisoned store fails fast instead.
    pub fn read_aggregate(&self) -> (r: Result<u64, StoreError>)
        ensures
            self.is_poisoned() ==> r == Err::<u64, StoreError>(StoreError::Poisoned),
            !self.is_poisoned() ==> (r matches Ok(v) && v == self.aggregate()),
    {
        if self.poisoned {
            Err(StoreError::Poisoned)
        } else {
            Ok(self.total)
        }
    }

    /// The count recorded under `key`. A poisoned store fails fast.
    pub fn read_count(&self, key: u64) -> (r: Result<u64, StoreError>)
        requires
            self.wf(),
        ensures
            self.is_poisoned() ==> r == Err::<u64, StoreError>(StoreError::Poisoned),
            !self.is_poisoned() ==> (r matches Ok(v) && v == self.count_of(key)),
    {
        if self.poisoned {
            return Err(StoreError::Poisoned);
        }
        let n: usize = self.entries.len();
        let mut i: usize = 0;
        while i < n
            invariant
                self.wf(),
                !self.is_poisoned(),
                n == self.entries@.len(),
                i <= n,
                forall|j: int| 0 <= j < i ==> self.entries@[j].0 != key,
            decreases n - i,
        {
            if self.entries[i].0 == key {
                proof {
                    lemma_lookup_at_index(self.entries@, i as int);
                }
                return Ok(self.entries[i].1);
            }
            i += 1;
        }
        proof {
            lemma_lookup_absent(self.entries@, key);
        }
        Ok(0)
    }

    /// Marks the store poisoned; every later operation fails fast. The
    /// counts themselves are left as they stand.
    pub fn mark_poisoned(&mut self)
        requires
            old(self).wf(),
        ensures
            final(self).wf(),
            final(self).is_poisoned(),
            final(self).aggregate() == old(self).aggregate(),
            forall|k: u64| final(self).count_of(k) == old(self).count_of(k),
    {
        self.poisoned = true;
    }
}

/// The sum of a sequence of counts is never negative.
proof fn lemma_sum_nonneg(s: Seq<(u64, u64)>)
    ensures
        sum_counts(s) >= 0,
    decreases s.len(),
{
    if s.len() > 0 {
        lemma_sum_nonneg(s.drop_last());
    }
}

/// A single count never exceeds the sum of all counts.
proof fn lemma_lookup_le_sum(s: Seq<(u64, u64)>, k: u64)
    ensures
        0 <= lookup(s, k) <= sum_counts(s),
    decreases s.len(),
{
    if s.len() == 0 {
    } else if s.last().0 == k {
        lemma_sum_nonneg(s.drop_last());
    } else {
        lemma_lookup_le_sum(s.drop_last(), k);
    }
}

/// With unique keys, the lookup of the key at index `i` is the count there.
proof fn lemma_lookup_at_index(s: Seq<(u64, u64)>, i: int)
    requires
        keys_unique(s),
        0 <= i < s.len(),
    ensures
        lookup(s, s[i].0) == s[i].1,
    decreases s.len(),
{
    if i == s.len() - 1 {
    } else {
        assert(s.last().0 != s[i].0);
        assert(keys_unique(s.drop_last()));
        lemma_lookup_at_index(s.drop_last(), i);
    }
}

/// Replacing the entry at index `i` shifts the sum by the difference of
/// the counts.
proof fn lemma_sum_update(s: Seq<(u64, u64)>, i: int, v: (u64, u64))
    requires
        0 <= i < s.len(),
    ensures
        sum_counts(s.update(i, v)) == sum_counts(s) - s[i].1 + v.1,
    decreases s.len(),
{
    let t = s.update(i, v);
    if i == s.len() - 1 {
        assert(t.drop_last() =~= s.drop_last());
    } else {
        assert(t.drop_last() =~= s.drop_last().update(i, v));
        lemma_sum_update(s.drop_last(), i, v);
    }
}

/// Replacing the entry at index `i` with one carrying the same key changes
/// only that key's lookup.
proof fn lemma_lookup_update(s: Seq<(u64, u64)>, i: int, v: (u64, u64), k: u64)
    requires
        0 <= i < s.len(),
        s[i].0 == v.0,
        keys_unique(s),
    ensures
        lookup(s.update(i, v), k) == if k == v.0 { v.1 as int } else { lookup(s, k) },
    decreases s.len(),
{
    let t = s.update(i, v);
    if i == s.len() - 1 {
        assert(t.drop_last() =~= s.drop_last());
    } else {
        assert(t.drop_last() =~= s.drop_last().update(i, v));
        assert(s.last().0 != v.0);
        assert(keys_unique(s.drop_last()));
        lemma_lookup_update(s.drop_last(), i, v, k);
    }
}

/// A key carried by no entry looks up to 0.
proof fn lemma_lookup_absent(s: Seq<(u64, u64)>, k: u64)
    requires
        forall|j: int| 0 <= j < s.len() ==> s[j].0 != k,
    ensures
        lookup(s, k) == 0,
    decreases s.len(),
{
    if s.len() > 0 {
        lemma_lookup_absent(s.drop_last(), k);
    }
}

} // verus!
