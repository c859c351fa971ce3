//! Laws of the counter store under sequences of increments.
//!
//! Concurrent increments are serialized by the store's single critical
//! section, so every concurrent execution is some interleaving: a sequence
//! of states, each reached from the one before by one increment. The laws
//! below quantify over every such interleaving, whatever order the calls
//! landed in.

use vstd::prelude::*;

use crate::store::CounterStore;
use crate::store::increments_to;

verus! {

/// `trace` is a run of the store: `trace[0]` is the starting state and
/// each later state is reached by one increment of the matching key in
/// `keys`.
pub open spec fn applies_increments(trace: Seq<CounterStore>, keys: Seq<u64>) -> bool {
    &&& trace.len() == keys.len() + 1
    &&& (forall|i: int|
        0 <= i < keys.len() ==> increments_to(trace[i], trace[i + 1], keys[i]))
}

/// A store with nothing recorded: aggregate 0 and every count 0.
pub open spec fn empty_store(s: CounterStore) -> bool {
    &&& s.aggregate() == 0
    &&& (forall|k: u64| s.count_of(k) == 0)
}

/// How many of the increments in `keys` hit the key `k`.
pub open spec fn occurrences(keys: Seq<u64>, k: u64) -> int
    decreases keys.len(),
{
    if keys.len() == 0 {
        0
    } else {
        occurrences(keys.drop_last(), k) + if keys.last() == k {
            1int
        } else {
            0int
        }
    }
}

/// The increments in `keys`, summed key by key over the key list `ks`.
pub open spec fn total_over_keys(ks: Seq<u64>, keys: Seq<u64>) -> int
    decreases ks.len(),
{
    if ks.len() == 0 {
        0
    } else {
        total_over_keys(ks.drop_last(), keys) + occurrences(keys, ks.last())
    }
}

/// No increment is ever lost and none is counted twice: after any run of
/// increments, in whatever order they were serialized, the aggregate has
/// grown by exactly the number of increments. In particular, a run of N
/// increments of one key from an empty store leaves the aggregate at N.
pub proof fn lemma_no_increment_lost(trace: Seq<CounterStore>, keys: Seq<u64>)
    requires
        applies_increments(trace, keys),
    ensures
        trace.last().aggregate() == trace[0].aggregate() + keys.len(),
    decreases keys.len(),
{
    if keys.len() > 0 {
        let shorter = trace.drop_last();
        lemma_no_increment_lost(shorter, keys.drop_last());
        assert(increments_to(trace[keys.len() - 1], trace[keys.len() as int],
            keys[keys.len() - 1]));
    }
}

/// Each key's count grows by exactly the number of increments that named
/// it, whatever order the run serialized them in.
pub proof fn lemma_per_key_count(trace: Seq<CounterStore>, keys: Seq<u64>, k: u64)
    requires
        applies_increments(trace, keys),
    ensures
        trace.last().count_of(k) == trace[0].count_of(k) + occurrences(keys, k),
    decreases keys.len(),
{
    if keys.len() > 0 {
        let shorter = trace.drop_last();
        lemma_per_key_count(shorter, keys.drop_last(), k);
        assert(increments_to(trace[keys.len() - 1], trace[keys.len() as int],
            keys[keys.len() - 1]));
    }
}

/// Appending one increment of `k` raises each per-key tally by how often
/// the key list names `k`.
proof fn lemma_total_over_keys_push(ks: Seq<u64>, keys: Seq<u64>, k: u64)
    ensures
        total_over_keys(ks, keys.push(k)) == total_over_keys(ks, keys) + occurrences(ks, k),
    decreases ks.len(),
{
    if ks.len() > 0 {
        lemma_total_over_keys_push(ks.drop_last(), keys, k);
        assert(keys.push(k).drop_last() =~= keys);
    }
}

/// When `ks` names every key of `keys` exactly once, the per-key tallies
/// over `ks` sum to the number of increments.
proof fn lemma_tallies_sum_to_len(ks: Seq<u64>, keys: Seq<u64>)
    requires
        forall|j: int| 0 <= j < keys.len() ==> occurrences(ks, keys[j]) == 1,
    ensures
        total_over_keys(ks, keys) == keys.len(),
    decreases keys.len(),
{
    if keys.len() == 0 {
        assert(keys =~= Seq::<u64>::empty());
        lemma_total_over_keys_empty(ks);
    } else {
        let shorter = keys.drop_last();
        lemma_tallies_sum_to_len(ks, shorter);
        lemma_total_over_keys_push(ks, shorter, keys.last());
        assert(keys =~= shorter.push(keys.last()));
        assert(occurrences(ks, keys.last()) == 1);
    }
}

/// With no increments at all, every per-key tally is 0.
proof fn lemma_total_over_keys_empty(ks: Seq<u64>)
    ensures
        total_over_keys(ks, Seq::<u64>::empty()) == 0,
    decreases ks.len(),
{
    if ks.len() > 0 {
        lemma_total_over_keys_empty(ks.drop_last());
    }
}

/// Starting from an empty store, the aggregate equals the sum of the
/// per-key counts: with distinct keys k1..km incremented n1..nm times in
/// any interleaving, the final count of each ki is ni and the aggregate
/// is n1 + ... + nm.
pub proof fn lemma_aggregate_is_sum_of_counts(
    trace: Seq<CounterStore>,
    keys: Seq<u64>,
    ks: Seq<u64>,
)
    requires
        applies_increments(trace, keys),
        empty_store(trace[0]),
        forall|j: int| 0 <= j < keys.len() ==> occurrences(ks, keys[j]) == 1,
    ensures
        forall|k: u64| trace.last().count_of(k) == occurrences(keys, k),
        trace.last().aggregate() == total_over_keys(ks, keys),
{
    lemma_no_increment_lost(trace, keys);
    lemma_tallies_sum_to_len(ks, keys);
    assert forall|k: u64| trace.last().count_of(k) == occurrences(keys, k) by {
        lemma_per_key_count(trace, keys, k);
    }
}

/// Two aggregate reads count every increment between them exactly once:
/// the reads at positions i and j of a run differ by exactly j - i, so an
/// increment in flight at one tick that lands in the next tick's read is
/// never double-counted across the two.
pub proof fn lemma_reads_count_once(trace: Seq<CounterStore>, keys: Seq<u64>, i: int, j: int)
    requires
        applies_increments(trace, keys),
        0 <= i <= j <= keys.len(),
    ensures
        trace[j].aggregate() == trace[i].aggregate() + (j - i),
    decreases j - i,
{
    if j > i {
        lemma_reads_count_once(trace, keys, i, j - 1);
        assert(increments_to(trace[j - 1], trace[j], keys[j - 1]));
    }
}

} // verus!
