//! The solver coordinator as a state machine.
//!
//! Whoever runs the workers hands each worker's result to
//! [`SolveCoordinator::on_result`] in the order in which the results arrive
//! and does what the returned action says. The coordinator decides; it
//! never waits.

use vstd::prelude::*;
use crate::cancel::CancellationFlag;
use crate::challenge::{IronShieldChallenge, IronShieldChallengeResponse, ChallengeView};
use crate::error::{ErrorHandler, ErrorView};
use crate::oracle::{solution_verdict, ChallengeOracle, HashOracle};
use crate::solve::{valid_response, WorkerResult};
use crate::worker::MAX_NONCE;

verus! {

/// The coordinator's state, as far as its decisions depend on it.
pub struct CoordinatorModel {
    /// Workers that have not reported yet.
    pub pending: nat,
    /// Whether the coordinator has raised the cancellation flag.
    pub cancelled: bool,
    /// Whether the solve invocation has ended.
    pub finished: bool,
}

/// The kinds of action a coordinator asks for.
#[derive(Debug, PartialEq, Eq, Structural, Clone, Copy)]
pub enum ActionKind {
    /// Go on awaiting the remaining workers.
    Await,
    /// Return the solution and abort every remaining worker.
    Deliver,
    /// Return the error: every worker ended without success.
    GiveUp,
    /// Ignore the result: the invocation had ended before it arrived.
    Discard,
}

/// What the caller of the coordinator is to do next.
#[derive(Debug)]
pub enum CoordinatorAction {
    /// Go on awaiting the remaining workers.
    Await,
    /// Return this response and abort every remaining worker. The
    /// cancellation flag has been raised.
    Deliver(IronShieldChallengeResponse),
    /// Return this error: every worker ended without success.
    GiveUp(ErrorHandler),
    /// Ignore the result: the invocation had ended before it arrived.
    Discard,
}

impl CoordinatorAction {
    /// The kind of this action.
    pub open spec fn kind(&self) -> ActionKind {
        match self {
            CoordinatorAction::Await => ActionKind::Await,
            CoordinatorAction::Deliver(_) => ActionKind::Deliver,
            CoordinatorAction::GiveUp(_) => ActionKind::GiveUp,
            CoordinatorAction::Discard => ActionKind::Discard,
        }
    }
}

/// Whether `result` carries a nonce of the explored domain that solves
/// `challenge`. Only such a result counts as a success.
pub open spec fn carries_solution(challenge: ChallengeView, result: WorkerResult) -> bool {
    result matches WorkerResult::Solved(response) && 0 <= response.solution <= MAX_NONCE
        && solution_verdict(
        challenge.random_nonce,
        challenge.challenge_param,
        response.solution as int,
    )
}

/// One decision: the state after a worker's result arrived and the action
/// taken, where `solved` says whether the result carried a solution.
///
/// The first success ends the invocation and raises the flag. Any other
/// result is dropped, and the invocation ends without a solution when it
/// was the last one outstanding. Results that arrive after the end are
/// ignored.
pub open spec fn step(model: CoordinatorModel, solved: bool) -> (CoordinatorModel, ActionKind) {
    if model.finished {
        (model, ActionKind::Discard)
    } else if solved {
        (CoordinatorModel { pending: 0, cancelled: true, finished: true }, ActionKind::Deliver)
    } else if model.pending <= 1 {
        (
            CoordinatorModel { pending: 0, cancelled: model.cancelled, finished: true },
            ActionKind::GiveUp,
        )
    } else {
        (
            CoordinatorModel {
                pending: (model.pending - 1) as nat,
                cancelled: model.cancelled,
                finished: false,
            },
            ActionKind::Await,
        )
    }
}

/// The state after the results `events` arrived in this order, each given
/// by whether it carried a solution.
pub open spec fn state_after(model: CoordinatorModel, events: Seq<bool>) -> CoordinatorModel
    decreases events.len(),
{
    if events.len() == 0 {
        model
    } else {
        step(state_after(model, events.drop_last()), events.last()).0
    }
}

/// The action taken on the `i`-th of `events`.
pub open spec fn action_at(model: CoordinatorModel, events: Seq<bool>, i: int) -> ActionKind {
    step(state_after(model, events.take(i)), events[i]).1
}

/// A finished invocation stays finished, and a raised flag stays raised.
proof fn lemma_latches(model: CoordinatorModel, events: Seq<bool>, i: int, j: int)
    requires
        0 <= i <= j <= events.len(),
    ensures
        state_after(model, events.take(i)).finished ==> state_after(
            model,
            events.take(j),
        ).finished,
        state_after(model, events.take(i)).cancelled ==> state_after(
            model,
            events.take(j),
        ).cancelled,
    decreases j - i,
{
    if i < j {
        lemma_latches(model, events, i, j - 1);
        assert(events.take(j).drop_last() =~= events.take(j - 1));
    }
}

/// Cancellation is monotonic: over any sequence of results, once the
/// coordinator has raised the flag it stays raised, so the flag goes from
/// lowered to raised at most once.
pub proof fn lemma_cancellation_monotonic(
    model: CoordinatorModel,
    events: Seq<bool>,
    i: int,
    j: int,
)
    requires
        0 <= i <= j <= events.len(),
        state_after(model, events.take(i)).cancelled,
    ensures
        state_after(model, events.take(j)).cancelled,
{
    lemma_latches(model, events, i, j);
}

/// Result uniqueness: over any sequence of results, the coordinator
/// delivers at most one solution. Every result after the delivery is
/// discarded.
pub proof fn lemma_single_delivery(model: CoordinatorModel, events: Seq<bool>, i: int, j: int)
    requires
        0 <= i < j < events.len(),
        action_at(model, events, i) == ActionKind::Deliver,
    ensures
        action_at(model, events, j) == ActionKind::Discard,
{
    assert(events.take(i + 1).drop_last() =~= events.take(i));
    assert(events.take(i + 1).last() == events[i]);
    assert(state_after(model, events.take(i + 1)).finished);
    lemma_latches(model, events, i + 1, j);
}

/// Solution validity at the coordinator: a response that is valid for the
/// challenge counts as a success, so an unfinished coordinator delivers
/// it.
pub proof fn lemma_valid_response_is_delivered(
    model: CoordinatorModel,
    challenge: ChallengeView,
    response: IronShieldChallengeResponse,
)
    requires
        !model.finished,
        valid_response(challenge, response@),
    ensures
        carries_solution(challenge, WorkerResult::Solved(response)),
        step(model, carries_solution(challenge, WorkerResult::Solved(response))).1
            == ActionKind::Deliver,
{
}

/// The coordinator of one solve invocation. It owns the decision which
/// result is returned and when the cancellation flag is raised.
pub struct SolveCoordinator {
    oracle: ChallengeOracle,
    pending: usize,
    cancelled: bool,
    finished: bool,
}

impl SolveCoordinator {
    /// The state that the decisions depend on.
    pub closed spec fn model(&self) -> CoordinatorModel {
        CoordinatorModel {
            pending: self.pending as nat,
            cancelled: self.cancelled,
            finished: self.finished,
        }
    }

    /// The challenge being solved.
    pub closed spec fn challenge(&self) -> ChallengeView {
        self.oracle.challenge@
    }

    /// A coordinator for `workers` workers on `challenge`, all of them
    /// outstanding, with the flag lowered.
    pub fn new(challenge: IronShieldChallenge, workers: usize) -> (coordinator: Self)
        ensures
            coordinator.challenge() == challenge@,
            coordinator.model() == (CoordinatorModel {
                pending: workers as nat,
                cancelled: false,
                finished: false,
            }),
    {
        SolveCoordinator {
            oracle: ChallengeOracle::new(challenge),
            pending: workers,
            cancelled: false,
            finished: false,
        }
    }

    /// Whether the coordinator has raised the cancellation flag.
    pub fn is_cancelled(&self) -> (cancelled: bool)
        ensures
            cancelled == self.model().cancelled,
    {
        self.cancelled
    }

    /// Whether the invocation has ended.
    pub fn is_finished(&self) -> (finished: bool)
        ensures
            finished == self.model().finished,
    {
        self.finished
    }

    /// Number of workers that have not reported yet.
    pub fn pending(&self) -> (pending: usize)
        ensures
            pending == self.model().pending,
    {
        self.pending
    }

    /// Takes the result of one worker and decides what happens next, as
    /// [`step`] says.
    ///
    /// A reported solution is checked against the hash oracle before it is
    /// accepted, so whatever is delivered solves the challenge; a report
    /// that does not is treated like a failed worker. On the first success
    /// the coordinator raises `flag`.
    pub fn on_result(&mut self, result: WorkerResult, flag: &CancellationFlag) -> (action:
        CoordinatorAction)
        ensures
            final(self).challenge() == old(self).challenge(),
            (final(self).model(), action.kind()) == step(
                old(self).model(),
                carries_solution(old(self).challenge(), result),
            ),
            match action {
                CoordinatorAction::Deliver(response) => {
                    &&& valid_response(old(self).challenge(), response@)
                    &&& result matches WorkerResult::Solved(reported)
                    &&& response.solution == reported.solution
                },
                CoordinatorAction::GiveUp(error) => error@ == ErrorView::NoSolution,
                _ => true,
            },
    {
        if self.finished {
            return CoordinatorAction::Discard;
        }
        match result {
            WorkerResult::Solved(reported) => {
                let nonce: i64 = reported.solution;
                if nonce >= 0 && self.oracle.satisfies(nonce) {
                    flag.cancel();
                    self.cancelled = true;
                    self.finished = true;
                    self.pending = 0;
                    return CoordinatorAction::Deliver(
                        IronShieldChallengeResponse::new(self.oracle.challenge.clone(), nonce),
                    );
                }
            },
            _ => {},
        }
        if self.pending <= 1 {
            self.pending = 0;
            self.finished = true;
            CoordinatorAction::GiveUp(ErrorHandler::NoSolution)
        } else {
            self.pending = self.pending - 1;
            CoordinatorAction::Await
        }
    }
}

} // verus!
