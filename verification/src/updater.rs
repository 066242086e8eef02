//! The lifecycle of the background cache refresher.
//!
//! The refresher alternates outside work (spawning a worker thread, sleeping
//! one period, joining) with decisions. The decisions live here, verified:
//! which transitions are legal, which outcomes are errors, and the one
//! synchronous refresh owed before `start` returns. The runtime that
//! actually spawns, sleeps and joins performs the outside work and reports
//! each outcome back in; the worker's own job each period is one call to
//! [`Instant::update`].

use vstd::prelude::*;

verus! {

use crate::instant::Instant;
use crate::source::TimeSource;

/// The lifecycle phase of an `Updater`.
///
/// The lifecycle is one-shot: `Idle` on construction, `Running` after a
/// successful `start`, and terminal thereafter -- `stop` consumes the
/// running updater, and there is no restart.
#[derive(Copy, Clone, Debug, PartialEq, Eq, Structural)]
pub enum UpdaterPhase {
    /// Constructed; no worker exists yet.
    Idle,
    /// A worker was created and refreshes the cache every period.
    Running,
}

/// The recoverable failures of the updater lifecycle.
#[derive(Copy, Clone, Debug, PartialEq, Eq, Structural)]
pub enum UpdaterError {
    /// The background worker could not be created, for example because the
    /// host ran out of thread resources.
    SpawnFailed,
    /// The background worker could not be joined: it ended abnormally.
    JoinFailed,
}

/// A background task that periodically refreshes the recent cache, so that
/// readers of `recent` never pay for a clock read.
#[derive(Debug)]
pub struct Updater {
    period_millis: u64,
    phase: UpdaterPhase,
}

impl Updater {
    /// The refresh period, in milliseconds.
    pub closed spec fn period_spec(&self) -> u64 {
        self.period_millis
    }

    /// The lifecycle phase.
    pub closed spec fn phase_spec(&self) -> UpdaterPhase {
        self.phase
    }

    /// A new, idle updater that will refresh every `period_millis`
    /// milliseconds once started.
    pub fn new(period_millis: u64) -> (u: Updater)
        ensures
            u.phase_spec() == UpdaterPhase::Idle,
            u.period_spec() == period_millis,
    {
        Updater { period_millis, phase: UpdaterPhase::Idle }
    }

    /// The refresh period in milliseconds, for the runtime driving the
    /// worker's sleep.
    pub fn period_millis(&self) -> (p: u64)
        ensures
            p == self.period_spec(),
    {
        self.period_millis
    }

    /// The current lifecycle phase.
    pub fn phase(&self) -> (p: UpdaterPhase)
        ensures
            p == self.phase_spec(),
    {
        self.phase
    }

    /// Consumes an idle updater once the runtime has tried to create the
    /// worker; `worker_spawned` reports whether that succeeded. On success
    /// the cache is refreshed once, synchronously, so `recent` is warm the
    /// instant this returns, and the running handle comes back; on failure
    /// the error is returned to the caller rather than ending the process.
    /// Starting a non-idle updater is a usage error, excluded by contract.
    pub fn start(self, source: &TimeSource, worker_spawned: bool) -> (r: Result<
        Updater,
        UpdaterError,
    >)
        requires
            self.phase_spec() == UpdaterPhase::Idle,
        ensures
            worker_spawned ==> (r matches Ok(u) && u.phase_spec() == UpdaterPhase::Running
                && u.period_spec() == self.period_spec()),
            !worker_spawned ==> r == Err::<Updater, UpdaterError>(UpdaterError::SpawnFailed),
    {
        if worker_spawned {
            Instant::update(source);
            Ok(Updater { period_millis: self.period_millis, phase: UpdaterPhase::Running })
        } else {
            Err(UpdaterError::SpawnFailed)
        }
    }

    /// Consumes a running updater once the runtime has asked the worker to
    /// exit and tried to join it; `worker_joined` reports whether the join
    /// succeeded. Consuming the updater makes the stop terminal: there is no
    /// restart. Stopping an updater that is not running is a usage error,
    /// excluded by contract.
    pub fn stop(self, worker_joined: bool) -> (r: Result<(), UpdaterError>)
        requires
            self.phase_spec() == UpdaterPhase::Running,
        ensures
            worker_joined ==> r == Ok::<(), UpdaterError>(()),
            !worker_joined ==> r == Err::<(), UpdaterError>(UpdaterError::JoinFailed),
    {
        if worker_joined {
            Ok(())
        } else {
            Err(UpdaterError::JoinFailed)
        }
    }
}

} // verus!
