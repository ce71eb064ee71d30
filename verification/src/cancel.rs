//! The cancellation flag shared by the workers of one solve invocation.

use vstd::prelude::*;
use std::sync::atomic::AtomicBool;

verus! {

/// A one-way latch: it starts lowered, [`cancel`](Self::cancel) raises it,
/// and nothing lowers it again. Workers poll it at batch boundaries.
///
/// Relaxed ordering is enough: the latch only hints that further work is
/// useless, and the coordinator learns of results through the workers'
/// return values.
pub struct CancellationFlag {
    raised: AtomicBool,
}

impl CancellationFlag {
    /// A lowered flag.
    pub fn new() -> Self {
        CancellationFlag { raised: AtomicBool::new(false) }
    }

    /// Raises the flag. Raising a raised flag changes nothing.
    pub fn cancel(&self) {
        self.raised.store(true, std::sync::atomic::Ordering::Relaxed);
    }

    /// Whether the flag has been seen raised.
    pub fn is_cancelled(&self) -> bool {
        self.raised.load(std::sync::atomic::Ordering::Relaxed)
    }
}

} // verus!
