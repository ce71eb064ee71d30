//! Per-worker progress accounting.
//!
//! A worker reports the size of each finished batch. The reporter adds it to
//! the worker's running total, derives an advisory hash rate from the time
//! since the worker started, and forwards the figures to an observer.

use vstd::prelude::*;
use std::time::{Duration, Instant};

verus! {

/// Observer of solving progress. Calls are fire-and-forget: nothing is
/// expected back and an implementation may drop any of them.
pub trait ProgressTracker: Send + Sync {
    fn on_progress(&self, thread_id: usize, total_attempts: u64, hash_rate: u64, elapsed: Duration);
}

/// `std::time::Instant`, carried as it is: a reading of the monotonic
/// clock.
#[verifier::external_type_specification]
#[verifier::external_body]
pub struct ExInstant(Instant);

/// `Instant::now` reads the monotonic clock; nothing is promised of it.
pub assume_specification[ Instant::now ]() -> (now: Instant);

/// `Instant::elapsed` is the time since the instant was taken; it depends
/// on the clock, so nothing is promised of it.
pub assume_specification[ Instant::elapsed ](started: &Instant) -> (elapsed: Duration);

/// `Duration::as_millis` returns the whole milliseconds of the duration; the
/// callers here need nothing of the value.
pub assume_specification[ Duration::as_millis ](d: &Duration) -> (ms: u128);

/// Attempts per second after `total` attempts in `elapsed_ms` milliseconds.
/// An elapsed time of zero counts as one millisecond. The figure is
/// advisory: for very short times it overstates the rate.
pub open spec fn hash_rate_of(total: nat, elapsed_ms: nat) -> nat {
    if elapsed_ms == 0 {
        total * 1000
    } else {
        (total * 1000) / elapsed_ms
    }
}

/// `value` cut off at the largest `u64`.
pub open spec fn clamp_u64(value: nat) -> u64 {
    if value <= u64::MAX {
        value as u64
    } else {
        u64::MAX
    }
}

/// Computes [`hash_rate_of`], cut off at `u64::MAX`.
pub fn hash_rate(total: u64, elapsed_ms: u64) -> (rate: u64)
    ensures
        rate == clamp_u64(hash_rate_of(total as nat, elapsed_ms as nat)),
{
    let scaled: u128 = (total as u128) * 1000;
    let divisor: u128 = if elapsed_ms == 0 {
        1
    } else {
        elapsed_ms as u128
    };
    let rate: u128 = scaled / divisor;
    if rate > u64::MAX as u128 {
        u64::MAX
    } else {
        rate as u64
    }
}

/// One progress report.
#[derive(Debug, PartialEq, Eq, Structural, Clone, Copy)]
pub struct ProgressEvent {
    /// The reporting worker.
    pub worker_id: usize,
    /// Attempts the worker has reported so far, this batch included.
    pub total_attempts: u64,
    /// Advisory attempts per second.
    pub hash_rate: u64,
    /// Milliseconds since the worker started.
    pub elapsed_ms: u64,
}

/// Progress state of one worker during one solve invocation.
pub struct WorkerState {
    worker_id: usize,
    attempts: u64,
    started: Instant,
}

impl WorkerState {
    /// The worker's id.
    pub closed spec fn id(&self) -> usize {
        self.worker_id
    }

    /// Attempts reported so far.
    pub closed spec fn total(&self) -> u64 {
        self.attempts
    }

    /// Fresh state for worker `worker_id`; its clock starts now.
    pub fn new(worker_id: usize) -> (state: Self)
        ensures
            state.id() == worker_id,
            state.total() == 0,
    {
        WorkerState { worker_id, attempts: 0, started: Instant::now() }
    }

    /// The worker's id.
    pub fn worker_id(&self) -> (id: usize)
        ensures
            id == self.id(),
    {
        self.worker_id
    }

    /// Attempts reported so far.
    pub fn total_attempts(&self) -> (total: u64)
        ensures
            total == self.total(),
    {
        self.attempts
    }

    /// Adds a batch of `batch_attempts` to the total and returns the event
    /// to publish, given that `elapsed_ms` milliseconds have passed since
    /// the worker started. The total stops at `u64::MAX`.
    pub fn record_at(&mut self, batch_attempts: u64, elapsed_ms: u64) -> (event: ProgressEvent)
        ensures
            final(self).id() == old(self).id(),
            final(self).total() == clamp_u64((old(self).total() + batch_attempts) as nat),
            event.worker_id == old(self).id(),
            event.total_attempts == final(self).total(),
            event.hash_rate == clamp_u64(
                hash_rate_of(final(self).total() as nat, elapsed_ms as nat),
            ),
            event.elapsed_ms == elapsed_ms,
    {
        self.attempts = self.attempts.saturating_add(batch_attempts);
        ProgressEvent {
            worker_id: self.worker_id,
            total_attempts: self.attempts,
            hash_rate: hash_rate(self.attempts, elapsed_ms),
            elapsed_ms,
        }
    }

    /// Records a finished batch against the clock and forwards the figures
    /// to `tracker`, if there is one. The elapsed time is whatever the clock
    /// says; the counters change as in [`record_at`](Self::record_at).
    pub fn report_batch<T: ProgressTracker>(&mut self, batch_attempts: u64, tracker: Option<&T>)
        ensures
            final(self).id() == old(self).id(),
            final(self).total() == clamp_u64((old(self).total() + batch_attempts) as nat),
    {
        let elapsed: Duration = self.started.elapsed();
        let millis: u128 = elapsed.as_millis();
        let elapsed_ms: u64 = if millis > u64::MAX as u128 {
            u64::MAX
        } else {
            millis as u64
        };
        let event: ProgressEvent = self.record_at(batch_attempts, elapsed_ms);
        match tracker {
            Some(t) => {
                t.on_progress(event.worker_id, event.total_attempts, event.hash_rate, elapsed);
            },
            None => {},
        }
    }
}

} // verus!
