use tally_core::store::CounterStore;
use tally_core::store::StoreError;

#[test]
fn fresh_store_is_empty() {
    let s = CounterStore::new();
    assert_eq!(s.read_aggregate(), Ok(0));
    assert_eq!(s.read_count(42), Ok(0));
}

#[test]
fn aggregate_counts_repeated_key() {
    let mut s = CounterStore::new();
    let k: u64 = 11;
    for _ in 0..7 {
        assert_eq!(s.increment(k), Ok(()));
    }
    assert_eq!(s.read_aggregate(), Ok(7));
    assert_eq!(s.read_count(k), Ok(7));
}

#[test]
fn aggregate_sums_distinct_keys() {
    let mut s = CounterStore::new();
    let plan: [(u64, u64); 4] = [(1, 4), (2, 3), (3, 2), (4, 1)];
    for &(k, n) in plan.iter() {
        for _ in 0..n {
            assert_eq!(s.increment(k), Ok(()));
        }
    }
    assert_eq!(s.read_count(1), Ok(4));
    assert_eq!(s.read_count(2), Ok(3));
    assert_eq!(s.read_count(3), Ok(2));
    assert_eq!(s.read_count(4), Ok(1));
    assert_eq!(s.read_aggregate(), Ok(10));
}

#[test]
fn no_increment_lost_across_interleaved_callers() {
    // 50 callers, 20 increments each, interleaved round-robin the way a
    // serialized concurrent run would land: exactly 1000 in the aggregate.
    let mut s = CounterStore::new();
    for _round in 0..20 {
        for caller in 0..50u64 {
            assert_eq!(s.increment(caller), Ok(()));
        }
    }
    assert_eq!(s.read_aggregate(), Ok(1000));
    for caller in 0..50u64 {
        assert_eq!(s.read_count(caller), Ok(20));
    }
}

#[test]
fn scenario_two_authors() {
    let mut s = CounterStore::new();
    let user_a: u64 = 100;
    let user_b: u64 = 200;
    for _ in 0..3 {
        assert_eq!(s.increment(user_a), Ok(()));
    }
    for _ in 0..2 {
        assert_eq!(s.increment(user_b), Ok(()));
    }
    assert_eq!(s.read_aggregate(), Ok(5));
}

#[test]
fn reads_never_double_count() {
    let mut s = CounterStore::new();
    let first = s.read_aggregate().unwrap();
    for _ in 0..3 {
        s.increment(9).unwrap();
    }
    let second = s.read_aggregate().unwrap();
    for _ in 0..2 {
        s.increment(9).unwrap();
    }
    let third = s.read_aggregate().unwrap();
    assert_eq!(second - first, 3);
    assert_eq!(third - second, 2);
    assert_eq!(third, 5);
}

#[test]
fn poisoned_store_fails_fast() {
    let mut s = CounterStore::new();
    s.increment(7).unwrap();
    s.mark_poisoned();
    assert_eq!(s.increment(7), Err(StoreError::Poisoned));
    assert_eq!(s.read_aggregate(), Err(StoreError::Poisoned));
    assert_eq!(s.read_count(7), Err(StoreError::Poisoned));
}
