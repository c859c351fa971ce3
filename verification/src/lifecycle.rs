//! Startup ordering and idempotent shutdown.
//!
//! The controller tracks the one legal order of bring-up — store, then
//! dispatcher, then scheduler — and coordinates shutdown on the external
//! interrupt: event intake stops first, the scheduler is signalled to
//! drain, and only when the scheduler has stopped (or the drain wait
//! timed out and it was force-stopped) is the process considered
//! stopped. A second shutdown signal changes nothing.

use vstd::prelude::*;

use crate::scheduler::Scheduler;
use crate::scheduler::SchedulerPhase;

verus! {

/// Where the process stands between creation and teardown.
#[derive(Clone, Copy, PartialEq, Eq, Structural, Debug)]
pub enum LifecyclePhase {
    /// Nothing brought up yet.
    Created,
    /// The counter store exists.
    StoreReady,
    /// The dispatcher accepts events; the scheduler is not ticking yet.
    DispatcherReady,
    /// Everything is up.
    Running,
    /// The interrupt arrived: intake is closed, the scheduler drains.
    ShuttingDown,
    /// Torn down.
    Stopped,
}

/// Deterministic startup and shutdown of the whole process.
pub struct LifecycleController {
    phase: LifecyclePhase,
}

impl LifecycleController {
    /// The current lifecycle phase.
    pub closed spec fn phase_spec(&self) -> LifecyclePhase {
        self.phase
    }

    /// Whether inbound events may still be dispatched.
    pub open spec fn accepting_spec(&self) -> bool {
        self.phase_spec() is DispatcherReady || self.phase_spec() is Running
    }

    /// A controller for a process with nothing brought up yet.
    pub fn new() -> (c: LifecycleController)
        ensures
            c.phase_spec() is Created,
    {
        LifecycleController { phase: LifecyclePhase::Created }
    }

    /// Records that the store is up; first step of bring-up.
    pub fn mark_store_ready(&mut self)
        requires
            old(self).phase_spec() is Created,
        ensures
            final(self).phase_spec() is StoreReady,
    {
        self.phase = LifecyclePhase::StoreReady;
    }

    /// Records that the dispatcher accepts events; only after the store.
    pub fn mark_dispatcher_ready(&mut self)
        requires
            old(self).phase_spec() is StoreReady,
        ensures
            final(self).phase_spec() is DispatcherReady,
    {
        self.phase = LifecyclePhase::DispatcherReady;
    }

    /// Records that the scheduler is ticking; last step of bring-up.
    pub fn mark_running(&mut self)
        requires
            old(self).phase_spec() is DispatcherReady,
        ensures
            final(self).phase_spec() is Running,
    {
        self.phase = LifecyclePhase::Running;
    }

    /// Whether inbound events may still be dispatched.
    pub fn accepting_events(&self) -> (r: bool)
        ensures
            r == self.accepting_spec(),
    {
        match self.phase {
            LifecyclePhase::DispatcherReady => true,
            LifecyclePhase::Running => true,
            LifecyclePhase::Created => false,
            LifecyclePhase::StoreReady => false,
            LifecyclePhase::ShuttingDown => false,
            LifecyclePhase::Stopped => false,
        }
    }

    /// The external interrupt. The first signal closes event intake and
    /// tells the scheduler to stop — draining its in-flight tick, if any.
    /// A signal during or after shutdown is a no-op: controller and
    /// scheduler are left exactly as they stand.
    pub fn signal_shutdown(&mut self, sched: &mut Scheduler)
        requires
            old(sched).wf(),
        ensures
            final(sched).wf(),
            !final(self).accepting_spec(),
            old(self).phase_spec() is ShuttingDown || old(self).phase_spec() is Stopped ==> {
                &&& *final(self) == *old(self)
                &&& *final(sched) == *old(sched)
            },
            !(old(self).phase_spec() is ShuttingDown || old(self).phase_spec() is Stopped)
                ==> {
                &&& final(self).phase_spec() is ShuttingDown
                &&& (old(sched).phase_spec() is Running && old(sched).in_flight_spec()
                    ==> final(sched).phase_spec() is Draining)
                &&& (old(sched).phase_spec() is Running && !old(sched).in_flight_spec()
                    ==> final(sched).phase_spec() is Stopped)
                &&& (!(old(sched).phase_spec() is Running) ==> *final(sched) == *old(sched))
                &&& final(sched).in_flight_spec() == old(sched).in_flight_spec()
                &&& final(sched).ticks_completed_spec() == old(sched).ticks_completed_spec()
            },
    {
        match self.phase {
            LifecyclePhase::ShuttingDown => {},
            LifecyclePhase::Stopped => {},
            LifecyclePhase::Created => {
                self.phase = LifecyclePhase::ShuttingDown;
                sched.request_stop();
            },
            LifecyclePhase::StoreReady => {
                self.phase = LifecyclePhase::ShuttingDown;
                sched.request_stop();
            },
            LifecyclePhase::DispatcherReady => {
                self.phase = LifecyclePhase::ShuttingDown;
                sched.request_stop();
            },
            LifecyclePhase::Running => {
                self.phase = LifecyclePhase::ShuttingDown;
                sched.request_stop();
            },
        }
    }

    /// Finishes shutdown once the scheduler has stopped: the store may
    /// then be discarded and the process is Stopped.
    pub fn complete_shutdown(&mut self, sched: &Scheduler)
        requires
            old(self).phase_spec() is ShuttingDown,
            sched.phase_spec() is Stopped,
        ensures
            final(self).phase_spec() is Stopped,
    {
        self.phase = LifecyclePhase::Stopped;
    }

    /// The current phase, for the embedding program and for tests.
    pub fn phase(&self) -> (p: LifecyclePhase)
        ensures
            p == self.phase_spec(),
    {
        self.phase
    }
}

} // verus!
