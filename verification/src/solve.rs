//! Solving a challenge: sizing the worker pool, running one worker, and the
//! coordinator's decisions.

use vstd::prelude::*;
use vstd::string::StringExecFns;
use crate::cancel::CancellationFlag;
use crate::challenge::{ChallengeView, IronShieldChallenge, IronShieldChallengeResponse,
    ResponseView};
use crate::config::ClientConfig;
use crate::error::{error_text, ErrorHandler, ErrorView};
use crate::oracle::{none_accepted, solution_verdict, ChallengeOracle, HashOracle};
use crate::partition::{lemma_partition_coverage, visits};
use crate::progress::{ProgressTracker, WorkerState};
use crate::text::{decimal_digits, decimal_text, join3};
use crate::worker::{search, SearchOutcome, SearchReport, MAX_NONCE};

verus! {

/// `num_cpus::get` returns the number of logical cores available to this
/// process. Its documentation promises at least one; the count itself
/// depends on the machine.
pub assume_specification[ num_cpus::get ]() -> (cores: usize)
    ensures
        cores >= 1,
;

/// How one solve invocation is run.
#[derive(Debug, PartialEq, Eq, Structural, Clone, Copy)]
pub struct SolveConfig {
    /// Number of workers, at least one.
    pub thread_count: usize,
    /// Whether the caller asked for a pool of workers.
    pub use_multithreaded: bool,
}

/// The pool size derived from `cores` available cores: four fifths of them,
/// rounded down, and at least one. The remaining fifth is left to the
/// caller's own work.
pub open spec fn auto_thread_count(cores: nat) -> nat {
    if (cores * 4) / 5 >= 1 {
        (cores * 4) / 5
    } else {
        1
    }
}

/// The number of workers for a thread-count override `threads`, the
/// caller's choice `use_multithreaded`, and `cores` available cores.
pub open spec fn planned_threads(threads: Option<usize>, use_multithreaded: bool, cores: nat) -> nat {
    if !use_multithreaded {
        1
    } else {
        match threads {
            Some(n) => if n >= 1 {
                n as nat
            } else {
                1
            },
            None => auto_thread_count(cores),
        }
    }
}

/// How the coordinator runs a solve invocation.
#[derive(Debug, PartialEq, Eq, Structural, Clone, Copy)]
pub enum SolveStrategy {
    /// One worker, inline, with offset 0 and stride 1.
    SingleThreaded,
    /// `workers` workers; worker `i` has offset `i` and stride `workers`.
    MultiThreaded { workers: usize },
}

impl SolveConfig {
    /// A solve configuration has at least one worker.
    pub open spec fn well_formed(&self) -> bool {
        self.thread_count >= 1
    }

    /// The solve configuration for `config` and the caller's choice, on
    /// this machine. An override of zero threads counts as one.
    pub fn new(config: &ClientConfig, use_multithreaded: bool) -> (solve: Self)
        ensures
            solve.use_multithreaded == use_multithreaded,
            solve.well_formed(),
            exists|cores: usize|
                cores >= 1 && solve.thread_count == planned_threads(
                    config.num_threads,
                    use_multithreaded,
                    cores as nat,
                ),
    {
        let cores: usize = num_cpus::get();
        Self::for_cores(config, use_multithreaded, cores)
    }

    /// The solve configuration for `config` and the caller's choice on a
    /// machine with `cores` available cores.
    pub fn for_cores(config: &ClientConfig, use_multithreaded: bool, cores: usize) -> (solve: Self)
        ensures
            solve.use_multithreaded == use_multithreaded,
            solve.well_formed(),
            solve.thread_count == planned_threads(
                config.num_threads,
                use_multithreaded,
                cores as nat,
            ),
    {
        let thread_count: usize = if use_multithreaded {
            match config.num_threads {
                Some(n) => if n >= 1 {
                    n
                } else {
                    1
                },
                None => {
                    let four_fifths: usize = (cores / 5) * 4 + ((cores % 5) * 4) / 5;
                    if four_fifths >= 1 {
                        four_fifths
                    } else {
                        1
                    }
                },
            }
        } else {
            1
        };
        SolveConfig { thread_count, use_multithreaded }
    }

    /// The strategy of this configuration: a pool only when the caller
    /// asked for one and it would have more than one worker.
    pub fn strategy(&self) -> (strategy: SolveStrategy)
        ensures
            strategy == if self.use_multithreaded && self.thread_count > 1 {
                SolveStrategy::MultiThreaded { workers: self.thread_count }
            } else {
                SolveStrategy::SingleThreaded
            },
    {
        if self.use_multithreaded && self.thread_count > 1 {
            SolveStrategy::MultiThreaded { workers: self.thread_count }
        } else {
            SolveStrategy::SingleThreaded
        }
    }
}

/// `response` answers `challenge` with a nonce of the explored domain that
/// the hash oracle accepts.
pub open spec fn valid_response(challenge: ChallengeView, response: ResponseView) -> bool {
    &&& response.solved_challenge == challenge
    &&& 0 <= response.solution <= MAX_NONCE
    &&& solution_verdict(challenge.random_nonce, challenge.challenge_param, response.solution)
}

/// No nonce that worker `worker_id` of `workers` visits, up to
/// [`MAX_NONCE`], solves `challenge`.
pub open spec fn progression_unsolvable(challenge: ChallengeView, worker_id: int, workers: int) -> bool {
    forall|m: int|
        worker_id <= m <= MAX_NONCE && visits(worker_id, workers, m) ==> !#[trigger] solution_verdict(
            challenge.random_nonce,
            challenge.challenge_param,
            m,
        )
}

/// The pool searches the whole nonce space: when none of the `workers`
/// progressions holds a solution, no nonce up to [`MAX_NONCE`] solves the
/// challenge. So a pool whose workers all fail has proved that there is
/// no solution.
pub proof fn lemma_pool_exhaustive(challenge: ChallengeView, workers: int)
    requires
        workers >= 1,
        forall|worker: int|
            0 <= worker < workers ==> #[trigger] progression_unsolvable(
                challenge,
                worker,
                workers,
            ),
    ensures
        forall|nonce: int|
            0 <= nonce <= MAX_NONCE ==> !#[trigger] solution_verdict(
                challenge.random_nonce,
                challenge.challenge_param,
                nonce,
            ),
{
    assert forall|nonce: int| 0 <= nonce <= MAX_NONCE implies !#[trigger] solution_verdict(
        challenge.random_nonce,
        challenge.challenge_param,
        nonce,
    ) by {
        lemma_partition_coverage(workers, nonce);
        let owner: int = nonce % workers;
        assert(progression_unsolvable(challenge, owner, workers));
    }
}

/// What a worker hands to the coordinator when it ends.
#[derive(Debug)]
pub enum WorkerResult {
    /// The worker found a solution.
    Solved(IronShieldChallengeResponse),
    /// The worker saw the cancellation flag raised. This is no error.
    Cancelled,
    /// The worker, or the task that ran it, failed.
    Failed(ErrorHandler),
}

/// The warning to log for a worker's result before it is dropped: the
/// error's line for a failed worker, nothing otherwise.
pub fn failure_warning(result: &WorkerResult) -> (warning: Option<String>)
    ensures
        match (result, warning) {
            (WorkerResult::Failed(error), Some(line)) => line@ == error_text(error@),
            (WorkerResult::Failed(_), None) => false,
            (_, Some(_)) => false,
            (_, None) => true,
        },
{
    match result {
        WorkerResult::Failed(error) => Some(error.to_text()),
        _ => None,
    }
}

/// The message of a worker that ran out of nonces.
pub open spec fn exhausted_message(worker_id: usize) -> Seq<char> {
    "Thread "@ + decimal_digits(worker_id as nat) + " failed: nonce space exhausted"@
}

/// Runs worker `worker_id` of `workers` on `challenge`: it searches the
/// nonces `worker_id, worker_id + workers, ...` in batches of `batch`.
///
/// The worker returns the first solution on its progression, unless it is
/// cancelled first. It is cancelled only if it was given a flag, and only
/// after a whole batch without a solution: the first `batch` nonces of its
/// progression, at least, solve nothing. It fails only when its progression
/// holds no solution.
pub fn run_worker<T: ProgressTracker>(
    challenge: &IronShieldChallenge,
    worker_id: usize,
    workers: usize,
    batch: u64,
    cancel: Option<&CancellationFlag>,
    tracker: Option<&T>,
) -> (result: WorkerResult)
    requires
        workers >= 1,
        batch >= 1,
    ensures
        match result {
            WorkerResult::Solved(response) => {
                &&& valid_response(challenge@, response@)
                &&& visits(worker_id as int, workers as int, response.solution as int)
                &&& forall|m: int|
                    worker_id <= m < response.solution && visits(
                        worker_id as int,
                        workers as int,
                        m,
                    ) ==> !#[trigger] solution_verdict(
                        challenge.random_nonce@,
                        challenge.challenge_param@,
                        m,
                    )
            },
            WorkerResult::Cancelled => {
                &&& cancel is Some
                &&& forall|m: int|
                    worker_id <= m < worker_id + batch * workers && visits(
                        worker_id as int,
                        workers as int,
                        m,
                    ) ==> !#[trigger] solution_verdict(
                        challenge.random_nonce@,
                        challenge.challenge_param@,
                        m,
                    )
            },
            WorkerResult::Failed(error) => {
                &&& progression_unsolvable(challenge@, worker_id as int, workers as int)
                &&& error@ == ErrorView::ChallengeSolvingError(exhausted_message(worker_id))
            },
        },
{
    let oracle: ChallengeOracle = ChallengeOracle::new(challenge.clone());
    let mut state: WorkerState = WorkerState::new(worker_id);
    let report: SearchReport = search(
        &oracle,
        worker_id as u64,
        workers as u64,
        batch,
        cancel,
        &mut state,
        tracker,
    );
    match report.outcome {
        SearchOutcome::Found(nonce) => {
            assert forall|m: int|
                worker_id <= m < nonce && visits(
                    worker_id as int,
                    workers as int,
                    m,
                ) implies !#[trigger] solution_verdict(
                challenge.random_nonce@,
                challenge.challenge_param@,
                m,
            ) by {
                assert(!oracle.accepts(m));
            }
            WorkerResult::Solved(IronShieldChallengeResponse::new(challenge.clone(), nonce))
        },
        SearchOutcome::Cancelled { resume_at } => {
            proof {
                let reported: int = report.batches_reported as int;
                assert(reported * batch * workers >= 0) by (nonlinear_arith)
                    requires
                        reported >= 0,
                        batch >= 1,
                        workers >= 1,
                ;
                assert forall|m: int|
                    worker_id <= m < worker_id + batch * workers && visits(
                        worker_id as int,
                        workers as int,
                        m,
                    ) implies !#[trigger] solution_verdict(
                    challenge.random_nonce@,
                    challenge.challenge_param@,
                    m,
                ) by {
                    assert(m < resume_at);
                    assert(!oracle.accepts(m));
                }
            }
            WorkerResult::Cancelled
        },
        SearchOutcome::Exhausted => {
            assert forall|m: int|
                worker_id <= m <= MAX_NONCE && visits(
                    worker_id as int,
                    workers as int,
                    m,
                ) implies !#[trigger] solution_verdict(
                challenge.random_nonce@,
                challenge.challenge_param@,
                m,
            ) by {
                assert(!oracle.accepts(m));
            }
            let id: String = decimal_text(worker_id as u64);
            WorkerResult::Failed(
                ErrorHandler::challenge_solving_error(
                    join3("Thread ", id.as_str(), " failed: nonce space exhausted"),
                ),
            )
        },
    }
}

/// Solves `challenge` with one inline worker that walks every nonce from 0
/// upwards. There is nothing to cancel. The call fails exactly when no
/// nonce up to [`MAX_NONCE`] solves the challenge.
pub fn solve_single_threaded(challenge: &IronShieldChallenge, batch: u64) -> (result: Result<
    IronShieldChallengeResponse,
    ErrorHandler,
>)
    requires
        batch >= 1,
    ensures
        match result {
            Ok(response) => {
                &&& valid_response(challenge@, response@)
                &&& forall|m: int|
                    0 <= m < response.solution ==> !#[trigger] solution_verdict(
                        challenge.random_nonce@,
                        challenge.challenge_param@,
                        m,
                    )
            },
            Err(error) => {
                &&& forall|m: int|
                    0 <= m <= MAX_NONCE ==> !#[trigger] solution_verdict(
                        challenge.random_nonce@,
                        challenge.challenge_param@,
                        m,
                    )
                &&& error@ == ErrorView::ChallengeSolvingError(
                    "Single-threaded solve failed: nonce space exhausted"@,
                )
            },
        },
{
    let oracle: ChallengeOracle = ChallengeOracle::new(challenge.clone());
    let mut state: WorkerState = WorkerState::new(0);
    let tracker: Option<&NoTracker> = None;
    let report: SearchReport = search(&oracle, 0, 1, batch, None, &mut state, tracker);
    match report.outcome {
        SearchOutcome::Found(nonce) => {
            assert forall|m: int| 0 <= m < nonce implies !#[trigger] solution_verdict(
                challenge.random_nonce@,
                challenge.challenge_param@,
                m,
            ) by {
                assert(visits(0, 1, m));
                assert(!oracle.accepts(m));
            }
            Ok(IronShieldChallengeResponse::new(challenge.clone(), nonce))
        },
        SearchOutcome::Cancelled { .. } => {
            proof {
                assert(false);
            }
            Err(ErrorHandler::NoSolution)
        },
        SearchOutcome::Exhausted => {
            assert forall|m: int| 0 <= m <= MAX_NONCE implies !#[trigger] solution_verdict(
                challenge.random_nonce@,
                challenge.challenge_param@,
                m,
            ) by {
                assert(visits(0, 1, m));
                assert(!oracle.accepts(m));
            }
            Err(
                ErrorHandler::challenge_solving_error(
                    String::from_str("Single-threaded solve failed: nonce space exhausted"),
                ),
            )
        },
    }
}

/// An observer that ignores every event.
pub struct NoTracker;

impl ProgressTracker for NoTracker {
    fn on_progress(
        &self,
        thread_id: usize,
        total_attempts: u64,
        hash_rate: u64,
        elapsed: std::time::Duration,
    ) {
    }
}

} // verus!
