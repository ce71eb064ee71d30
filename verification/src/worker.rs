//! The solver worker: a single-threaded search along one progression of the
//! nonce space.

use vstd::prelude::*;
use crate::cancel::CancellationFlag;
use crate::oracle::{none_accepted, HashOracle};
use crate::partition::{lemma_visits_gap, lemma_visits_nth, lemma_visits_restart, visits};
use crate::progress::{clamp_u64, ProgressTracker, WorkerState};

verus! {

/// Number of hash evaluations between two polls of the cancellation flag
/// when the caller has no preference.
pub const DEFAULT_BATCH_SIZE: u64 = 65_536;

/// The largest nonce a worker tries: the top of the signed 64-bit range that
/// the wire format can carry.
pub const MAX_NONCE: u64 = 0x7fff_ffff_ffff_ffff;

/// How a worker's search ended.
#[derive(Debug, PartialEq, Eq, Structural, Clone, Copy)]
pub enum SearchOutcome {
    /// The oracle accepted this nonce.
    Found(i64),
    /// The cancellation flag was seen raised at a batch boundary. The search
    /// had covered its progression below `resume_at`.
    Cancelled { resume_at: i64 },
    /// Every nonce of the progression up to [`MAX_NONCE`] was rejected.
    Exhausted,
}

/// What a search reports besides its outcome.
#[derive(Debug, PartialEq, Eq, Structural, Clone, Copy)]
pub struct SearchReport {
    /// How the search ended.
    pub outcome: SearchOutcome,
    /// Number of batches for which a progress event was published.
    pub batches_reported: u64,
}

/// What a search started at `offset` with stride `stride` and batches of
/// `batch` may report about `oracle`.
pub open spec fn search_result<O: HashOracle>(
    oracle: &O,
    offset: int,
    stride: int,
    batch: int,
    cancellable: bool,
    report: SearchReport,
) -> bool {
    let covered = offset + report.batches_reported * batch * stride;
    match report.outcome {
        SearchOutcome::Found(n) => {
            &&& visits(offset, stride, n as int)
            &&& n <= MAX_NONCE
            &&& oracle.accepts(n as int)
            &&& none_accepted(oracle, offset, stride, offset, n as int)
            &&& covered <= n < covered + batch * stride
        },
        SearchOutcome::Cancelled { resume_at } => {
            &&& cancellable
            &&& none_accepted(oracle, offset, stride, offset, resume_at as int)
            &&& resume_at == covered + batch * stride
        },
        SearchOutcome::Exhausted => {
            &&& none_accepted(oracle, offset, stride, offset, MAX_NONCE + 1)
            &&& if offset > MAX_NONCE {
                report.batches_reported == 0
            } else {
                covered <= MAX_NONCE < covered + batch * stride
            }
        },
    }
}

/// Tests the nonces `from, from + stride, ...` one at a time up to
/// [`MAX_NONCE`].
fn search_tail<O: HashOracle>(oracle: &O, offset: u64, stride: u64, from: u64) -> (outcome:
    SearchOutcome)
    requires
        stride >= 1,
        from <= MAX_NONCE,
        visits(offset as int, stride as int, from as int),
        none_accepted(oracle, offset as int, stride as int, offset as int, from as int),
    ensures
        match outcome {
            SearchOutcome::Found(n) => {
                &&& from <= n <= MAX_NONCE
                &&& visits(offset as int, stride as int, n as int)
                &&& oracle.accepts(n as int)
                &&& none_accepted(oracle, offset as int, stride as int, offset as int, n as int)
            },
            SearchOutcome::Cancelled { .. } => false,
            SearchOutcome::Exhausted => none_accepted(
                oracle,
                offset as int,
                stride as int,
                offset as int,
                MAX_NONCE + 1,
            ),
        },
{
    let mut cur: u64 = from;
    loop
        invariant
            stride >= 1,
            from <= cur <= MAX_NONCE,
            visits(offset as int, stride as int, cur as int),
            none_accepted(oracle, offset as int, stride as int, offset as int, cur as int),
        decreases MAX_NONCE - cur,
    {
        if oracle.satisfies(cur as i64) {
            return SearchOutcome::Found(cur as i64);
        }
        if stride > MAX_NONCE - cur {
            proof {
                assert forall|m: int|
                    offset <= m < MAX_NONCE + 1 && visits(
                        offset as int,
                        stride as int,
                        m,
                    ) implies !#[trigger] oracle.accepts(m) by {
                    if m > cur {
                        lemma_visits_gap(offset as int, stride as int, cur as int, m);
                    }
                }
            }
            return SearchOutcome::Exhausted;
        }
        proof {
            lemma_visits_nth(cur as int, stride as int, 1);
            lemma_visits_restart(offset as int, stride as int, cur as int, cur + stride);
            assert forall|m: int|
                offset <= m < cur + stride && visits(
                    offset as int,
                    stride as int,
                    m,
                ) implies !#[trigger] oracle.accepts(m) by {
                if m > cur {
                    lemma_visits_gap(offset as int, stride as int, cur as int, m);
                }
            }
        }
        cur = cur + stride;
    }
}

/// After a whole batch from `next` found nothing below `bound`, nothing of
/// the progression is accepted below `next + batch * stride`.
proof fn lemma_batch_covered<O: HashOracle>(
    oracle: &O,
    offset: int,
    stride: int,
    next: int,
    batch: int,
)
    requires
        stride >= 1,
        batch >= 1,
        visits(offset, stride, next),
        none_accepted(oracle, offset, stride, offset, next),
        forall|m: int|
            next <= m < next + batch * stride - stride + 1 && visits(next, stride, m)
                ==> !#[trigger] oracle.accepts(m),
    ensures
        visits(offset, stride, next + batch * stride),
        none_accepted(oracle, offset, stride, offset, next + batch * stride),
{
    let end: int = next + batch * stride;
    lemma_visits_nth(next, stride, batch);
    assert(end >= next) by (nonlinear_arith)
        requires
            end == next + batch * stride,
            batch >= 1,
            stride >= 1,
    ;
    lemma_visits_restart(offset, stride, next, end);
    assert forall|m: int| offset <= m < end && visits(offset, stride, m) implies !#[trigger] oracle.accepts(
        m,
    ) by {
        if m >= next {
            lemma_visits_restart(offset, stride, next, m);
            if m >= end - stride + 1 {
                lemma_visits_gap(offset, stride, m, end);
            }
        }
    }
}

/// The worker's step at a batch boundary, from what the poll of the
/// cancellation flag returned: the worker stops exactly when the flag was
/// seen raised, and then publishes nothing more; otherwise it reports the
/// batch and goes on.
pub fn after_batch(flag_seen_raised: bool) -> (stop: bool)
    ensures
        stop == flag_seen_raised,
{
    flag_seen_raised
}

/// Searches the progression `offset, offset + stride, ...` for a nonce that
/// `oracle` accepts, in batches of `batch` evaluations.
///
/// After every batch that found nothing the worker polls `cancel`, if it
/// was given a flag, and takes the step that [`after_batch`] gives for
/// what the poll returned: if the flag was seen raised it stops with
/// `Cancelled` and publishes nothing more, otherwise it reports the batch
/// through `state` and `tracker` and goes on. The search ends with `Exhausted`, not with
/// an overflow, once the next nonce would pass [`MAX_NONCE`]. The last,
/// partial batch ends the search by itself and has no boundary.
///
/// What the report says is [`search_result`]: a found nonce is the first
/// accepted one on the progression, an exhausted search has seen every
/// nonce of the progression rejected, and the number of reported batches
/// tells how far the search had come.
pub fn search<O: HashOracle, T: ProgressTracker>(
    oracle: &O,
    offset: u64,
    stride: u64,
    batch: u64,
    cancel: Option<&CancellationFlag>,
    state: &mut WorkerState,
    tracker: Option<&T>,
) -> (report: SearchReport)
    requires
        stride >= 1,
        batch >= 1,
    ensures
        search_result(
            oracle,
            offset as int,
            stride as int,
            batch as int,
            cancel is Some,
            report,
        ),
        final(state).id() == old(state).id(),
        final(state).total() == clamp_u64(
            (old(state).total() + report.batches_reported * batch) as nat,
        ),
{
    if offset > MAX_NONCE {
        return SearchReport { outcome: SearchOutcome::Exhausted, batches_reported: 0 };
    }
    let mut next: u64 = offset;
    let mut batches: u64 = 0;
    proof {
        lemma_visits_nth(offset as int, stride as int, 0);
        assert(offset + 0 * batch * stride == offset) by (nonlinear_arith);
    }
    loop
        invariant
            stride >= 1,
            batch >= 1,
            next <= MAX_NONCE,
            next == offset + batches * batch * stride,
            visits(offset as int, stride as int, next as int),
            none_accepted(oracle, offset as int, stride as int, offset as int, next as int),
            state.id() == old(state).id(),
            state.total() == clamp_u64((old(state).total() + batches * batch) as nat),
        decreases MAX_NONCE - next,
    {
        let span: Option<u64> = batch.checked_mul(stride);
        let end: Option<u64> = match span {
            Some(s) => next.checked_add(s),
            None => None,
        };
        let whole: Option<u64> = match end {
            Some(e) => if e <= MAX_NONCE {
                Some(e)
            } else {
                None
            },
            None => None,
        };
        assert(batch * stride >= stride) by (nonlinear_arith)
            requires
                batch >= 1,
                stride >= 1,
        ;
        match whole {
            None => {
                let outcome: SearchOutcome = search_tail(oracle, offset, stride, next);
                return SearchReport { outcome, batches_reported: batches };
            },
            Some(e) => {
                let bound: u64 = e - stride + 1;
                match oracle.first_solution(next as i64, stride as i64, bound as i64) {
                    Some(n) => {
                        proof {
                            lemma_visits_restart(
                                offset as int,
                                stride as int,
                                next as int,
                                n as int,
                            );
                            assert forall|m: int|
                                offset <= m < n && visits(
                                    offset as int,
                                    stride as int,
                                    m,
                                ) implies !#[trigger] oracle.accepts(m) by {
                                if m >= next {
                                    lemma_visits_restart(
                                        offset as int,
                                        stride as int,
                                        next as int,
                                        m,
                                    );
                                }
                            }
                        }
                        return SearchReport {
                            outcome: SearchOutcome::Found(n),
                            batches_reported: batches,
                        };
                    },
                    None => {},
                }
                proof {
                    lemma_batch_covered(
                        oracle,
                        offset as int,
                        stride as int,
                        next as int,
                        batch as int,
                    );
                }
                let stop: bool = match cancel {
                    Some(flag) => after_batch(flag.is_cancelled()),
                    None => false,
                };
                if stop {
                    return SearchReport {
                        outcome: SearchOutcome::Cancelled { resume_at: e as i64 },
                        batches_reported: batches,
                    };
                }
                state.report_batch(batch, tracker);
                proof {
                    assert((batches + 1) * batch * stride == batches * batch * stride + batch
                        * stride) by (nonlinear_arith);
                    assert((batches + 1) * batch == batches * batch + batch) by (nonlinear_arith);
                    assert(batches * batch >= 0) by (nonlinear_arith)
                        requires
                            batches >= 0,
                            batch >= 1,
                    ;
                    assert(batches + 1 <= e) by (nonlinear_arith)
                        requires
                            e == offset + (batches + 1) * batch * stride,
                            batch >= 1,
                            stride >= 1,
                            batches >= 0,
                            offset >= 0,
                    ;
                }
                batches = batches + 1;
                next = e;
            },
        }
    }
}

} // verus!
