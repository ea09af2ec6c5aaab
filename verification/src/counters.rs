//! Per-phase counters of the island solver.
//!
//! Each solver phase is bracketed by a `resume`/`pause` pair. The library
//! keeps the counters free of any clock: a `PhaseTimer` records whether a
//! span is open and how many spans have completed, and the embedding
//! application may attach wall-clock measurement around the same bracketing
//! if it needs durations.

use vstd::prelude::*;

verus! {

/// Saturating increment.
pub open spec fn inc_sat(x: u64) -> u64 {
    if x < u64::MAX {
        (x + 1) as u64
    } else {
        x
    }
}

/// One phase's span counter: `running` while a span is open, `spans`
/// completed spans so far.
#[derive(Clone, Copy, Debug, PartialEq, Eq, Structural)]
pub struct PhaseTimer {
    pub running: bool,
    pub spans: u64,
}

impl PhaseTimer {
    /// A timer with no open span and no completed spans.
    pub fn new() -> (r: PhaseTimer)
        ensures
            r == (PhaseTimer { running: false, spans: 0u64 }),
    {
        PhaseTimer { running: false, spans: 0 }
    }

    /// Opens a span.
    pub fn resume(&mut self)
        ensures
            *final(self) == (PhaseTimer { running: true, spans: old(self).spans }),
    {
        self.running = true;
    }

    /// Closes the span and counts it.
    pub fn pause(&mut self)
        ensures
            *final(self) == (PhaseTimer { running: false, spans: inc_sat(old(self).spans) }),
    {
        self.running = false;
        if self.spans < u64::MAX {
            self.spans = self.spans + 1;
        }
    }
}

/// The counters written by one island solve.
#[derive(Clone, Copy, Debug, PartialEq, Eq, Structural)]
pub struct SolverCounters {
    pub velocity_assembly_time: PhaseTimer,
    pub velocity_update_time: PhaseTimer,
    pub velocity_resolution_time: PhaseTimer,
    pub position_resolution_time: PhaseTimer,
}

/// Caller-provided counters; the island solver touches only `solver`.
#[derive(Clone, Copy, Debug, PartialEq, Eq, Structural)]
pub struct Counters {
    pub solver: SolverCounters,
}

/// No timer of `c` has an open span.
pub open spec fn counters_paused(c: Counters) -> bool {
    &&& !c.solver.velocity_assembly_time.running
    &&& !c.solver.velocity_update_time.running
    &&& !c.solver.velocity_resolution_time.running
    &&& !c.solver.position_resolution_time.running
}

impl Counters {
    /// Fresh counters, all paused at zero.
    pub fn new() -> (r: Counters)
        ensures
            r == (Counters {
                solver: SolverCounters {
                    velocity_assembly_time: PhaseTimer { running: false, spans: 0u64 },
                    velocity_update_time: PhaseTimer { running: false, spans: 0u64 },
                    velocity_resolution_time: PhaseTimer { running: false, spans: 0u64 },
                    position_resolution_time: PhaseTimer { running: false, spans: 0u64 },
                },
            }),
            counters_paused(r),
    {
        Counters {
            solver: SolverCounters {
                velocity_assembly_time: PhaseTimer::new(),
                velocity_update_time: PhaseTimer::new(),
                velocity_resolution_time: PhaseTimer::new(),
                position_resolution_time: PhaseTimer::new(),
            },
        }
    }
}

} // verus!
