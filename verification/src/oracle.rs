//! The hash oracle: the difficulty predicate that a nonce must satisfy.
//!
//! The search code is written against the [`HashOracle`] trait. The oracle
//! that the protocol uses, [`ChallengeOracle`], delegates every hash to
//! `ironshield_core`.

use vstd::prelude::*;
use crate::challenge::IronShieldChallenge;
use crate::partition::{lemma_visits_gap, lemma_visits_nth, lemma_visits_restart, visits};

verus! {

/// A pure difficulty predicate over nonces.
pub trait HashOracle {
    /// The verdict on `nonce`.
    spec fn accepts(&self, nonce: int) -> bool;

    /// Evaluates the predicate on one nonce.
    fn satisfies(&self, nonce: i64) -> (ok: bool)
        ensures
            ok == self.accepts(nonce as int),
    ;

    /// Walks `start, start + stride, ...` below `limit` and returns the
    /// first accepted nonce, or `None` when there is none.
    fn first_solution(&self, start: i64, stride: i64, limit: i64) -> (found: Option<i64>)
        requires
            0 <= start,
            1 <= stride,
            limit + stride - 1 <= i64::MAX,
        ensures
            match found {
                Some(n) => {
                    &&& start <= n < limit
                    &&& visits(start as int, stride as int, n as int)
                    &&& self.accepts(n as int)
                    &&& forall|m: int|
                        start <= m < n && visits(start as int, stride as int, m)
                            ==> !#[trigger] self.accepts(m)
                },
                None => forall|m: int|
                    start <= m < limit && visits(start as int, stride as int, m)
                        ==> !#[trigger] self.accepts(m),
            },
    ;
}

/// No nonce `m` of the progression `(offset, stride)` with
/// `from <= m < bound` is accepted by `oracle`.
pub open spec fn none_accepted<O: HashOracle + ?Sized>(
    oracle: &O,
    offset: int,
    stride: int,
    from: int,
    bound: int,
) -> bool {
    forall|m: int|
        from <= m < bound && visits(offset, stride, m) ==> !#[trigger] oracle.accepts(m)
}

/// Verdict of `ironshield_core::verify_ironshield_solution` on a response
/// that pairs `nonce` with a challenge holding `random_nonce` and
/// `challenge_param`.
pub uninterp spec fn solution_verdict(
    random_nonce: Seq<char>,
    challenge_param: Seq<u8>,
    nonce: int,
) -> bool;

/// Calls `ironshield_core::verify_ironshield_solution`. That function
/// decodes `random_nonce` from hex, hashes it followed by the nonce's eight
/// little-endian bytes with SHA-256, and reports whether the digest is
/// below `challenge_param`; it reads no other field. The contract gives
/// that verdict its name.
#[verifier::external_body]
fn verify_solution(challenge: &IronShieldChallenge, nonce: i64) -> (ok: bool)
    ensures
        ok == solution_verdict(challenge.random_nonce@, challenge.challenge_param@, nonce as int),
{
    let response = ironshield_types::IronShieldChallengeResponse {
        solved_challenge: ironshield_types::IronShieldChallenge {
            random_nonce: challenge.random_nonce.clone(),
            created_time: challenge.created_time,
            expiration_time: challenge.expiration_time,
            website_id: challenge.website_id.clone(),
            challenge_param: challenge.challenge_param,
            recommended_attempts: challenge.recommended_attempts,
            public_key: challenge.public_key,
            challenge_signature: challenge.challenge_signature,
        },
        solution: nonce,
    };
    ironshield_core::verify_ironshield_solution(&response)
}

/// Calls `ironshield_core::execute_proof_of_work` without a progress
/// callback. That function tests `start, start + stride, ...` in order
/// while the candidate is below `limit`, with the hash and comparison that
/// `verify_ironshield_solution` uses, and returns the first candidate that
/// passes; it fails when none does or when `random_nonce` is not hex, in
/// which case no candidate passes the verification either. The
/// precondition keeps its candidate counter from overflowing.
#[verifier::external_body]
fn search_progression(challenge: &IronShieldChallenge, start: i64, stride: i64, limit: i64) -> (found:
    Option<i64>)
    requires
        0 <= start,
        1 <= stride,
        limit + stride - 1 <= i64::MAX,
    ensures
        match found {
            Some(n) => {
                &&& start <= n < limit
                &&& visits(start as int, stride as int, n as int)
                &&& solution_verdict(
                    challenge.random_nonce@,
                    challenge.challenge_param@,
                    n as int,
                )
                &&& forall|m: int|
                    start <= m < n && visits(start as int, stride as int, m)
                        ==> !#[trigger] solution_verdict(
                        challenge.random_nonce@,
                        challenge.challenge_param@,
                        m,
                    )
            },
            None => forall|m: int|
                start <= m < limit && visits(start as int, stride as int, m)
                    ==> !#[trigger] solution_verdict(
                    challenge.random_nonce@,
                    challenge.challenge_param@,
                    m,
                ),
        },
{
    let outside = ironshield_types::IronShieldChallenge {
        random_nonce: challenge.random_nonce.clone(),
        created_time: challenge.created_time,
        expiration_time: challenge.expiration_time,
        website_id: challenge.website_id.clone(),
        challenge_param: challenge.challenge_param,
        recommended_attempts: challenge.recommended_attempts,
        public_key: challenge.public_key,
        challenge_signature: challenge.challenge_signature,
    };
    let config = ironshield_core::PoWConfig::custom(limit, 0);
    ironshield_core::execute_proof_of_work(start, stride, &config, None, &outside).ok().map(|r| r.solution)
}

/// The oracle of one challenge: SHA-256 of the challenge's random nonce and
/// the candidate, compared against the challenge's threshold.
pub struct ChallengeOracle {
    pub challenge: IronShieldChallenge,
}

impl ChallengeOracle {
    /// The oracle for `challenge`.
    pub fn new(challenge: IronShieldChallenge) -> (oracle: Self)
        ensures
            oracle.challenge == challenge,
    {
        ChallengeOracle { challenge }
    }
}

impl HashOracle for ChallengeOracle {
    open spec fn accepts(&self, nonce: int) -> bool {
        solution_verdict(self.challenge.random_nonce@, self.challenge.challenge_param@, nonce)
    }

    fn satisfies(&self, nonce: i64) -> (ok: bool) {
        verify_solution(&self.challenge, nonce)
    }

    fn first_solution(&self, start: i64, stride: i64, limit: i64) -> (found: Option<i64>) {
        search_progression(&self.challenge, start, stride, limit)
    }
}

/// An oracle that accepts exactly the nonces of a list. It stands in for a
/// hash where a search is to be exercised on chosen solutions.
pub struct ListOracle {
    pub accepted: Vec<i64>,
}

impl ListOracle {
    /// The oracle that accepts the nonces in `accepted` and no others.
    pub fn new(accepted: Vec<i64>) -> (oracle: Self)
        ensures
            oracle.accepted == accepted,
    {
        ListOracle { accepted }
    }
}

impl HashOracle for ListOracle {
    open spec fn accepts(&self, nonce: int) -> bool {
        exists|i: int| 0 <= i < self.accepted@.len() && self.accepted@[i] == nonce
    }

    fn satisfies(&self, nonce: i64) -> (ok: bool) {
        let mut i: usize = 0;
        while i < self.accepted.len()
            invariant
                i <= self.accepted.len(),
                forall|j: int| 0 <= j < i ==> self.accepted@[j] != nonce,
            decreases self.accepted.len() - i,
        {
            if self.accepted[i] == nonce {
                return true;
            }
            i += 1;
        }
        false
    }

    fn first_solution(&self, start: i64, stride: i64, limit: i64) -> (found: Option<i64>) {
        let mut nonce: i64 = start;
        proof {
            lemma_visits_nth(start as int, stride as int, 0);
        }
        while nonce < limit
            invariant
                1 <= stride,
                0 <= start <= nonce,
                limit + stride - 1 <= i64::MAX,
                visits(start as int, stride as int, nonce as int),
                forall|m: int|
                    start <= m < nonce && visits(start as int, stride as int, m)
                        ==> !#[trigger] self.accepts(m),
            decreases limit + stride - nonce,
        {
            if self.satisfies(nonce) {
                return Some(nonce);
            }
            proof {
                lemma_visits_nth(nonce as int, stride as int, 1);
                lemma_visits_restart(start as int, stride as int, nonce as int, nonce + stride);
                assert forall|m: int|
                    start <= m < nonce + stride && visits(
                        start as int,
                        stride as int,
                        m,
                    ) implies !#[trigger] self.accepts(m) by {
                    if m > nonce {
                        lemma_visits_gap(start as int, stride as int, nonce as int, m);
                    }
                }
            }
            nonce = nonce + stride;
        }
        None
    }
}

} // verus!
