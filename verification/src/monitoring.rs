//! GPU monitoring: its statistics, the decisions of the monitoring loop, and
//! starting and stopping it.
//!
//! The loop itself (threads, sleeping, collecting metrics, alerts on
//! floating-point thresholds) runs outside; it asks `MonitorControl` whether
//! to start or stop and tells `MonitorLoop` how each collection went.
use vstd::prelude::*;
use std::collections::VecDeque;
use std::time::{Duration, Instant};
use crate::time::duration_nanos;

verus! {

/// After this many failed collections in a row the loop takes a longer
/// break.
pub const MAX_CONSECUTIVE_ERRORS: u32 = 10;

/// Monitoring statistics.
#[derive(Debug, Clone)]
pub struct MonitorStats {
    /// When monitoring started.
    pub start_time: Option<Instant>,
    /// Number of successful collections.
    pub total_measurements: u64,
    /// Number of alerts raised.
    pub total_alerts: u64,
    /// Number of failed collections.
    pub total_errors: u64,
    /// Average duration of a collection.
    pub avg_collection_time: Duration,
    /// When the last successful collection started.
    pub last_collection_time: Option<Instant>,
}

impl Default for MonitorStats {
    /// Nothing measured yet.
    fn default() -> (r: Self)
        ensures
            r.start_time is None,
            r.total_measurements == 0,
            r.total_alerts == 0,
            r.total_errors == 0,
            duration_nanos(r.avg_collection_time) == 0,
            r.last_collection_time is None,
    {
        MonitorStats {
            start_time: None,
            total_measurements: 0,
            total_alerts: 0,
            total_errors: 0,
            avg_collection_time: Duration::from_secs(0),
            last_collection_time: None,
        }
    }
}

/// The alert handler that writes alerts to the log.
#[derive(Debug)]
pub struct LogAlertHandler;

impl LogAlertHandler {
    /// The handler's name.
    pub fn name(&self) -> (r: &'static str)
        ensures
            r@ == "LogAlertHandler"@,
    {
        "LogAlertHandler"
    }
}

/// What the loop does after a collection, besides waiting its polling
/// interval.
#[derive(Debug, Clone, Copy, PartialEq, Eq, Structural)]
pub enum LoopAction {
    /// Go on as usual.
    Continue,
    /// Too many collections failed in a row: take a longer break first.
    PauseAfterErrors,
}

/// The state of the monitoring loop: failed collections in a row and
/// iterations so far.
pub struct MonitorLoop {
    consecutive_errors: u32,
    iteration_count: u64,
}

impl MonitorLoop {
    /// Fewer than `MAX_CONSECUTIVE_ERRORS` failures in a row are ever
    /// pending.
    #[verifier::type_invariant]
    spec fn pending_errors_bounded(self) -> bool {
        self.consecutive_errors < MAX_CONSECUTIVE_ERRORS
    }

    /// Failed collections in a row.
    pub closed spec fn errors(self) -> nat {
        self.consecutive_errors as nat
    }

    /// Iterations started so far.
    pub closed spec fn iterations(self) -> nat {
        self.iteration_count as nat
    }

    /// A loop that has not run yet.
    pub fn new() -> (r: Self)
        ensures
            r.errors() == 0,
            r.iterations() == 0,
    {
        MonitorLoop { consecutive_errors: 0, iteration_count: 0 }
    }

    /// Failed collections in a row; always fewer than
    /// `MAX_CONSECUTIVE_ERRORS`.
    pub fn consecutive_errors(&self) -> (r: u32)
        ensures
            r == self.errors(),
            r < MAX_CONSECUTIVE_ERRORS,
    {
        proof {
            use_type_invariant(self);
        }
        self.consecutive_errors
    }

    /// Iterations started so far.
    pub fn iteration_count(&self) -> (r: u64)
        ensures
            r == self.iterations(),
    {
        self.iteration_count
    }

    /// Counts the start of an iteration.
    pub fn begin_iteration(&mut self)
        requires
            old(self).iterations() < u64::MAX,
        ensures
            final(self).iterations() == old(self).iterations() + 1,
            final(self).errors() == old(self).errors(),
    {
        proof {
            use_type_invariant(&*self);
        }
        self.iteration_count = self.iteration_count + 1;
    }

    /// A collection succeeded: the run of failures ends.
    pub fn record_success(&mut self)
        ensures
            final(self).errors() == 0,
            final(self).iterations() == old(self).iterations(),
    {
        self.consecutive_errors = 0;
    }

    /// A collection failed: after `MAX_CONSECUTIVE_ERRORS` failures in a row
    /// the loop pauses and starts counting again.
    pub fn record_failure(&mut self) -> (r: LoopAction)
        ensures
            final(self).iterations() == old(self).iterations(),
            old(self).errors() + 1 >= MAX_CONSECUTIVE_ERRORS ==> r == LoopAction::PauseAfterErrors
                && final(self).errors() == 0,
            old(self).errors() + 1 < MAX_CONSECUTIVE_ERRORS ==> r == LoopAction::Continue
                && final(self).errors() == old(self).errors() + 1,
    {
        proof {
            use_type_invariant(&*self);
        }
        let errors = self.consecutive_errors + 1;
        if errors >= MAX_CONSECUTIVE_ERRORS {
            self.consecutive_errors = 0;
            LoopAction::PauseAfterErrors
        } else {
            self.consecutive_errors = errors;
            LoopAction::Continue
        }
    }
}

impl MonitorStats {
    /// Counts a successful collection that started at `collection_start`.
    pub fn record_measurement(&mut self, collection_start: Instant)
        requires
            old(self).total_measurements < u64::MAX,
        ensures
            final(self).total_measurements == old(self).total_measurements + 1,
            final(self).last_collection_time == Some(collection_start),
            final(self).total_errors == old(self).total_errors,
            final(self).total_alerts == old(self).total_alerts,
            final(self).start_time == old(self).start_time,
            final(self).avg_collection_time == old(self).avg_collection_time,
    {
        self.total_measurements = self.total_measurements + 1;
        self.last_collection_time = Some(collection_start);
    }

    /// Counts a failed collection.
    pub fn record_error(&mut self)
        requires
            old(self).total_errors < u64::MAX,
        ensures
            final(self).total_errors == old(self).total_errors + 1,
            final(self).total_measurements == old(self).total_measurements,
            final(self).total_alerts == old(self).total_alerts,
            final(self).start_time == old(self).start_time,
            final(self).last_collection_time == old(self).last_collection_time,
            final(self).avg_collection_time == old(self).avg_collection_time,
    {
        self.total_errors = self.total_errors + 1;
    }
}

/// The last `n` items of `s`, all of them when there are no more than `n`.
pub open spec fn keep_last<T>(s: Seq<T>, n: nat) -> Seq<T> {
    if s.len() <= n {
        s
    } else {
        s.subrange(s.len() - n, s.len() as int)
    }
}

/// Appends `x` to a metric history that keeps at most `max_size` entries:
/// the oldest entries beyond that are dropped, the latest `max_size` stay in
/// order.
pub fn push_bounded<T>(history: &mut VecDeque<T>, x: T, max_size: usize)
    ensures
        final(history)@ == keep_last(old(history)@.push(x), max_size as nat),
{
    broadcast use vstd::std_specs::vecdeque::group_vec_dequeue_axioms;
    history.push_back(x);
    let ghost full = history@;
    while history.len() > max_size
        invariant
            history@.len() <= full.len(),
            history@ == full.subrange(full.len() - history@.len(), full.len() as int),
            full.len() <= max_size ==> history@ == full,
            full.len() > max_size ==> history@.len() >= max_size,
        decreases history@.len(),
    {
        history.pop_front();
        assert(history@ =~= full.subrange(full.len() - history@.len(), full.len() as int));
    }
    assert(full.len() <= max_size ==> full.subrange(0, full.len() as int) =~= full);
}

/// What starting the monitor calls for.
#[derive(Debug, Clone, Copy, PartialEq, Eq, Structural)]
pub enum StartPlan {
    /// Monitoring already runs; nothing to do.
    AlreadyRunning,
    /// Start the monitoring thread, first adding the log alert handler when
    /// no handler was registered.
    Launch {
        /// Add `LogAlertHandler` before starting.
        add_default_handler: bool,
    },
}

/// Whether monitoring runs.
pub struct MonitorControl {
    running: bool,
}

impl MonitorControl {
    /// Whether monitoring runs.
    pub closed spec fn running(self) -> bool {
        self.running
    }

    /// A monitor that does not run.
    pub fn new() -> (r: Self)
        ensures
            !r.running(),
    {
        MonitorControl { running: false }
    }

    /// Whether monitoring runs.
    pub fn is_monitoring(&self) -> (r: bool)
        ensures
            r == self.running(),
    {
        self.running
    }

    /// Starts monitoring, given how many alert handlers are registered: a
    /// running monitor is left alone, otherwise it runs afterwards and the
    /// log handler is added when there is no handler.
    pub fn start(&mut self, handler_count: usize) -> (r: StartPlan)
        ensures
            final(self).running(),
            old(self).running() ==> r == StartPlan::AlreadyRunning,
            !old(self).running() ==> r == (StartPlan::Launch { add_default_handler: handler_count == 0 }),
    {
        if self.running {
            StartPlan::AlreadyRunning
        } else {
            self.running = true;
            StartPlan::Launch { add_default_handler: handler_count == 0 }
        }
    }

    /// Stops monitoring; the result says whether it ran, that is whether
    /// the monitoring thread is to be joined.
    pub fn stop(&mut self) -> (r: bool)
        ensures
            !final(self).running(),
            r == old(self).running(),
    {
        let was = self.running;
        self.running = false;
        was
    }
}

} // verus!
