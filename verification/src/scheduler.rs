//! Periodic aggregate reporting, as a state machine driven by the clock.
//!
//! The scheduler fires one tick per period, independent of the event
//! rate: the embedding program runs the timer loop and asks, at each
//! wake-up, whether a tick is due. A due tick reads the aggregate here;
//! the caller then makes the one best-effort report attempt and closes
//! the tick, failed or not — a failing sink never stops the cadence.
//!
//! Phases: Stopped, Running, and Draining for a stop signal that arrived
//! while a tick was in flight; that tick still completes, and closing it
//! reaches Stopped.

use vstd::prelude::*;

use crate::store::CounterStore;

verus! {

/// Where the scheduler stands in its life.
#[derive(Clone, Copy, PartialEq, Eq, Structural, Debug)]
pub enum SchedulerPhase {
    /// Not ticking: never started, or stopped.
    Stopped,
    /// Ticking on schedule.
    Running,
    /// A stop signal arrived mid-tick; the in-flight tick still completes.
    Draining,
}

/// What a wake-up of the timer loop found.
pub enum TickOutcome {
    /// No tick is due yet (or the scheduler is not running).
    NotDue,
    /// A tick fired at `at` and read the aggregate `value`; the caller
    /// reports it and then closes the tick.
    Fired { at: u64, value: u64 },
    /// A tick fired at `at` but the store failed fast; the tick counts as
    /// failed and must still be closed.
    StoreFailed { at: u64 },
}

/// The periodic reporting task's state.
pub struct Scheduler {
    period: u64,
    phase: SchedulerPhase,
    next_due: u64,
    in_flight: bool,
    ticks_completed: u64,
    reports_failed: u64,
}

impl Scheduler {
    /// The fixed period between ticks.
    pub closed spec fn period_spec(&self) -> u64 {
        self.period
    }

    /// The current phase.
    pub closed spec fn phase_spec(&self) -> SchedulerPhase {
        self.phase
    }

    /// The time at which the next tick is due.
    pub closed spec fn next_due_spec(&self) -> u64 {
        self.next_due
    }

    /// Whether a tick has fired and is not yet closed.
    pub closed spec fn in_flight_spec(&self) -> bool {
        self.in_flight
    }

    /// How many ticks have completed, report attempt included.
    pub closed spec fn ticks_completed_spec(&self) -> u64 {
        self.ticks_completed
    }

    /// How many completed ticks had a failed report attempt.
    pub closed spec fn reports_failed_spec(&self) -> u64 {
        self.reports_failed
    }

    /// Consistency: the period is positive, only a running or draining
    /// scheduler has a tick in flight, and draining always does.
    pub open spec fn wf(&self) -> bool {
        &&& self.period_spec() >= 1
        &&& (self.in_flight_spec() ==> self.phase_spec() is Running
            || self.phase_spec() is Draining)
        &&& (self.phase_spec() is Draining ==> self.in_flight_spec())
    }

    /// A scheduler that will tick every `period` time units once started.
    pub fn new(period: u64) -> (s: Scheduler)
        requires
            period >= 1,
        ensures
            s.wf(),
            s.phase_spec() is Stopped,
            s.period_spec() == period,
            !s.in_flight_spec(),
            s.ticks_completed_spec() == 0,
            s.reports_failed_spec() == 0,
    {
        Scheduler {
            period,
            phase: SchedulerPhase::Stopped,
            next_due: 0,
            in_flight: false,
            ticks_completed: 0,
            reports_failed: 0,
        }
    }

    /// Starts ticking: the first tick falls one period after `now`.
    pub fn start(&mut self, now: u64)
        requires
            old(self).wf(),
            old(self).phase_spec() is Stopped,
            now + old(self).period_spec() <= u64::MAX,
        ensures
            final(self).wf(),
            final(self).phase_spec() is Running,
            final(self).next_due_spec() == now + old(self).period_spec(),
            final(self).period_spec() == old(self).period_spec(),
            !final(self).in_flight_spec(),
            final(self).ticks_completed_spec() == old(self).ticks_completed_spec(),
            final(self).reports_failed_spec() == old(self).reports_failed_spec(),
    {
        self.phase = SchedulerPhase::Running;
        self.next_due = now + self.period;
    }

    /// One wake-up of the timer loop at time `now`. Fires at most one tick:
    /// when running, due, and with no tick already in flight, it reads the
    /// aggregate and the tick is in flight until `finish_tick`; otherwise
    /// nothing changes.
    pub fn begin_tick(&mut self, store: &CounterStore, now: u64) -> (t: TickOutcome)
        requires
            old(self).wf(),
        ensures
            final(self).wf(),
            !(old(self).phase_spec() is Running && now >= old(self).next_due_spec()
                && !old(self).in_flight_spec()) ==> {
                &&& t is NotDue
                &&& *final(self) == *old(self)
            },
            (old(self).phase_spec() is Running && now >= old(self).next_due_spec()
                && !old(self).in_flight_spec()) ==> {
                &&& final(self).in_flight_spec()
                &&& final(self).phase_spec() is Running
                &&& final(self).period_spec() == old(self).period_spec()
                &&& final(self).next_due_spec() == old(self).next_due_spec()
                &&& final(self).ticks_completed_spec() == old(self).ticks_completed_spec()
                &&& final(self).reports_failed_spec() == old(self).reports_failed_spec()
                &&& (!store.is_poisoned() ==> (t matches TickOutcome::Fired { at, value }
                    && at == now && value == store.aggregate()))
                &&& (store.is_poisoned() ==> (t matches TickOutcome::StoreFailed { at }
                    && at == now))
            },
    {
        match self.phase {
            SchedulerPhase::Running => {
                if self.in_flight || now < self.next_due {
                    return TickOutcome::NotDue;
                }
                self.in_flight = true;
                match store.read_aggregate() {
                    Ok(value) => TickOutcome::Fired { at: now, value },
                    Err(_) => TickOutcome::StoreFailed { at: now },
                }
            },
            SchedulerPhase::Stopped => TickOutcome::NotDue,
            SchedulerPhase::Draining => TickOutcome::NotDue,
        }
    }

    /// Closes the in-flight tick after its one report attempt. The next
    /// tick keeps the fixed cadence, a failed report is only tallied, and
    /// a draining scheduler stops here: its last tick has completed.
    pub fn finish_tick(&mut self, report_ok: bool)
        requires
            old(self).wf(),
            old(self).in_flight_spec(),
            old(self).next_due_spec() + old(self).period_spec() <= u64::MAX,
            old(self).ticks_completed_spec() < u64::MAX,
            old(self).reports_failed_spec() < u64::MAX,
        ensures
            final(self).wf(),
            !final(self).in_flight_spec(),
            final(self).period_spec() == old(self).period_spec(),
            final(self).next_due_spec() == old(self).next_due_spec()
                + old(self).period_spec(),
            final(self).ticks_completed_spec() == old(self).ticks_completed_spec() + 1,
            final(self).reports_failed_spec() == old(self).reports_failed_spec()
                + if report_ok { 0int } else { 1int },
            old(self).phase_spec() is Running ==> final(self).phase_spec() is Running,
            old(self).phase_spec() is Draining ==> final(self).phase_spec() is Stopped,
    {
        self.in_flight = false;
        self.next_due = self.next_due + self.period;
        self.ticks_completed = self.ticks_completed + 1;
        if !report_ok {
            self.reports_failed = self.reports_failed + 1;
        }
        match self.phase {
            SchedulerPhase::Draining => {
                self.phase = SchedulerPhase::Stopped;
            },
            SchedulerPhase::Running => {},
            SchedulerPhase::Stopped => {},
        }
    }

    /// The stop signal. A scheduler with a tick in flight drains — the
    /// tick completes and reports before the stop — and one between ticks
    /// stops at once. A second signal is a no-op.
    pub fn request_stop(&mut self)
        requires
            old(self).wf(),
        ensures
            final(self).wf(),
            final(self).period_spec() == old(self).period_spec(),
            final(self).next_due_spec() == old(self).next_due_spec(),
            final(self).in_flight_spec() == old(self).in_flight_spec(),
            final(self).ticks_completed_spec() == old(self).ticks_completed_spec(),
            final(self).reports_failed_spec() == old(self).reports_failed_spec(),
            old(self).phase_spec() is Running && old(self).in_flight_spec()
                ==> final(self).phase_spec() is Draining,
            old(self).phase_spec() is Running && !old(self).in_flight_spec()
                ==> final(self).phase_spec() is Stopped,
            old(self).phase_spec() is Draining ==> *final(self) == *old(self),
            old(self).phase_spec() is Stopped ==> *final(self) == *old(self),
    {
        match self.phase {
            SchedulerPhase::Running => {
                if self.in_flight {
                    self.phase = SchedulerPhase::Draining;
                } else {
                    self.phase = SchedulerPhase::Stopped;
                }
            },
            SchedulerPhase::Draining => {},
            SchedulerPhase::Stopped => {},
        }
    }

    /// Force-stops a scheduler whose drain outlived the shutdown timeout.
    pub fn force_stop(&mut self)
        requires
            old(self).wf(),
        ensures
            final(self).wf(),
            final(self).phase_spec() is Stopped,
            !final(self).in_flight_spec(),
            final(self).period_spec() == old(self).period_spec(),
            final(self).ticks_completed_spec() == old(self).ticks_completed_spec(),
            final(self).reports_failed_spec() == old(self).reports_failed_spec(),
    {
        self.phase = SchedulerPhase::Stopped;
        self.in_flight = false;
    }

    /// The current phase, for the embedding loop and for tests.
    pub fn phase(&self) -> (p: SchedulerPhase)
        ensures
            p == self.phase_spec(),
    {
        self.phase
    }

    /// The time the next tick is due, for the embedding loop's sleep.
    pub fn next_due(&self) -> (d: u64)
        ensures
            d == self.next_due_spec(),
    {
        self.next_due
    }

    /// How many ticks have completed.
    pub fn ticks_completed(&self) -> (n: u64)
        ensures
            n == self.ticks_completed_spec(),
    {
        self.ticks_completed
    }

    /// How many completed ticks had a failed report attempt.
    pub fn reports_failed(&self) -> (n: u64)
        ensures
            n == self.reports_failed_spec(),
    {
        self.reports_failed
    }
}

} // verus!
