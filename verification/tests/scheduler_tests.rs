use tally_core::scheduler::Scheduler;
use tally_core::scheduler::SchedulerPhase;
use tally_core::scheduler::TickOutcome;
use tally_core::store::CounterStore;

#[test]
fn stopped_scheduler_never_fires() {
    let store = CounterStore::new();
    let mut sched = Scheduler::new(10);
    for now in 0..50u64 {
        assert!(matches!(sched.begin_tick(&store, now), TickOutcome::NotDue));
    }
    assert_eq!(sched.ticks_completed(), 0);
}

#[test]
fn scenario_three_periods_zero_events() {
    // Period 10, a run of duration 30 with no events: exactly three
    // report attempts, each reporting 0.
    let store = CounterStore::new();
    let mut sched = Scheduler::new(10);
    sched.start(0);
    let mut reported: Vec<u64> = Vec::new();
    for now in 0..=30u64 {
        match sched.begin_tick(&store, now) {
            TickOutcome::Fired { at, value } => {
                assert_eq!(at % 10, 0);
                reported.push(value);
                sched.finish_tick(true);
            }
            TickOutcome::NotDue => {}
            TickOutcome::StoreFailed { .. } => panic!("healthy store failed"),
        }
    }
    assert_eq!(reported, vec![0, 0, 0]);
    assert_eq!(sched.ticks_completed(), 3);
    assert_eq!(sched.reports_failed(), 0);
}

#[test]
fn scenario_failing_sink_keeps_ticking() {
    // A sink that always fails: the scheduler still ticks on schedule for
    // five further periods.
    let store = CounterStore::new();
    let mut sched = Scheduler::new(10);
    sched.start(0);
    let mut fired_at: Vec<u64> = Vec::new();
    for now in 0..=50u64 {
        match sched.begin_tick(&store, now) {
            TickOutcome::Fired { at, .. } => {
                fired_at.push(at);
                // the report attempt fails every time
                sched.finish_tick(false);
            }
            TickOutcome::NotDue => {}
            TickOutcome::StoreFailed { .. } => panic!("healthy store failed"),
        }
    }
    assert_eq!(fired_at, vec![10, 20, 30, 40, 50]);
    assert_eq!(sched.ticks_completed(), 5);
    assert_eq!(sched.reports_failed(), 5);
    assert_eq!(sched.phase(), SchedulerPhase::Running);
}

#[test]
fn tick_reads_increments_completed_before_it() {
    let mut store = CounterStore::new();
    let mut sched = Scheduler::new(10);
    sched.start(0);
    store.increment(1).unwrap();
    store.increment(1).unwrap();
    let first = sched.begin_tick(&store, 10);
    match first {
        TickOutcome::Fired { value, .. } => assert_eq!(value, 2),
        _ => panic!("tick was due"),
    }
    // lands while the first tick is still open: for the next tick
    store.increment(2).unwrap();
    sched.finish_tick(true);
    match sched.begin_tick(&store, 20) {
        TickOutcome::Fired { value, .. } => assert_eq!(value, 3),
        _ => panic!("tick was due"),
    }
    sched.finish_tick(true);
}

#[test]
fn at_most_one_tick_in_flight() {
    let store = CounterStore::new();
    let mut sched = Scheduler::new(5);
    sched.start(0);
    assert!(matches!(sched.begin_tick(&store, 5), TickOutcome::Fired { .. }));
    // the open tick blocks a second one, however late the clock runs
    assert!(matches!(sched.begin_tick(&store, 17), TickOutcome::NotDue));
    sched.finish_tick(true);
    assert!(matches!(sched.begin_tick(&store, 17), TickOutcome::Fired { .. }));
    sched.finish_tick(true);
}

#[test]
fn poisoned_store_makes_failed_tick_but_cadence_holds() {
    let mut store = CounterStore::new();
    store.mark_poisoned();
    let mut sched = Scheduler::new(10);
    sched.start(0);
    match sched.begin_tick(&store, 10) {
        TickOutcome::StoreFailed { at } => assert_eq!(at, 10),
        _ => panic!("expected the store to fail fast"),
    }
    sched.finish_tick(false);
    assert_eq!(sched.phase(), SchedulerPhase::Running);
    assert_eq!(sched.next_due(), 20);
    assert_eq!(sched.reports_failed(), 1);
}
