//! Protocol values exchanged with the issuing service.
//!
//! The client treats the issuer's fields as opaque data: it carries them
//! from the challenge into the response unchanged and only reads the two
//! inputs of the difficulty predicate, `random_nonce` and `challenge_param`.

use vstd::prelude::*;

verus! {

/// A proof-of-work challenge as issued by the service.
#[derive(Debug)]
pub struct IronShieldChallenge {
    /// Hex string that seeds every hash of this challenge.
    pub random_nonce: String,
    /// Creation time, Unix milliseconds.
    pub created_time: i64,
    /// Expiry time, Unix milliseconds.
    pub expiration_time: i64,
    /// Identifier of the protected site.
    pub website_id: String,
    /// Target threshold: a hash satisfies the challenge when it is below it.
    pub challenge_param: [u8; 32],
    /// Expected number of attempts, for display.
    pub recommended_attempts: u64,
    /// Issuer's Ed25519 public key.
    pub public_key: [u8; 32],
    /// Issuer's signature over the challenge.
    pub challenge_signature: [u8; 64],
}

/// Mathematical value of an [`IronShieldChallenge`].
pub struct ChallengeView {
    pub random_nonce: Seq<char>,
    pub created_time: int,
    pub expiration_time: int,
    pub website_id: Seq<char>,
    pub challenge_param: Seq<u8>,
    pub recommended_attempts: nat,
    pub public_key: Seq<u8>,
    pub challenge_signature: Seq<u8>,
}

impl View for IronShieldChallenge {
    type V = ChallengeView;

    open spec fn view(&self) -> ChallengeView {
        ChallengeView {
            random_nonce: self.random_nonce@,
            created_time: self.created_time as int,
            expiration_time: self.expiration_time as int,
            website_id: self.website_id@,
            challenge_param: self.challenge_param@,
            recommended_attempts: self.recommended_attempts as nat,
            public_key: self.public_key@,
            challenge_signature: self.challenge_signature@,
        }
    }
}

impl Clone for IronShieldChallenge {
    fn clone(&self) -> (copy: Self)
        ensures
            copy@ == self@,
    {
        IronShieldChallenge {
            random_nonce: self.random_nonce.clone(),
            created_time: self.created_time,
            expiration_time: self.expiration_time,
            website_id: self.website_id.clone(),
            challenge_param: self.challenge_param,
            recommended_attempts: self.recommended_attempts,
            public_key: self.public_key,
            challenge_signature: self.challenge_signature,
        }
    }
}

/// A solved challenge: the challenge itself and the nonce found for it.
#[derive(Debug)]
pub struct IronShieldChallengeResponse {
    /// The challenge that was solved, echoed unchanged.
    pub solved_challenge: IronShieldChallenge,
    /// The nonce, in its signed 64-bit wire form. The solver only ever
    /// produces non-negative values.
    pub solution: i64,
}

/// Mathematical value of an [`IronShieldChallengeResponse`].
pub struct ResponseView {
    pub solved_challenge: ChallengeView,
    pub solution: int,
}

impl View for IronShieldChallengeResponse {
    type V = ResponseView;

    open spec fn view(&self) -> ResponseView {
        ResponseView { solved_challenge: self.solved_challenge@, solution: self.solution as int }
    }
}

impl IronShieldChallengeResponse {
    /// Pairs a challenge with the nonce that solves it.
    pub fn new(solved_challenge: IronShieldChallenge, solution: i64) -> (response: Self)
        ensures
            response.solved_challenge == solved_challenge,
            response.solution == solution,
    {
        IronShieldChallengeResponse { solved_challenge, solution }
    }
}

impl Clone for IronShieldChallengeResponse {
    fn clone(&self) -> (copy: Self)
        ensures
            copy@ == self@,
    {
        IronShieldChallengeResponse {
            solved_challenge: self.solved_challenge.clone(),
            solution: self.solution,
        }
    }
}

/// The access credential handed out for a solved challenge. Its contents
/// belong to the issuer; the client only carries them.
#[derive(Debug)]
pub struct IronShieldToken {
    /// Signature of the challenge this token answers.
    pub challenge_signature: [u8; 64],
    /// End of validity, Unix milliseconds.
    pub valid_for: i64,
    /// Issuer's Ed25519 public key.
    pub public_key: [u8; 32],
    /// Issuer's signature over the token.
    pub auth_signature: [u8; 64],
}

/// Mathematical value of an [`IronShieldToken`].
pub struct TokenView {
    pub challenge_signature: Seq<u8>,
    pub valid_for: int,
    pub public_key: Seq<u8>,
    pub auth_signature: Seq<u8>,
}

impl View for IronShieldToken {
    type V = TokenView;

    open spec fn view(&self) -> TokenView {
        TokenView {
            challenge_signature: self.challenge_signature@,
            valid_for: self.valid_for as int,
            public_key: self.public_key@,
            auth_signature: self.auth_signature@,
        }
    }
}

/// Body of the request that asks for a challenge.
#[derive(Debug)]
pub struct IronShieldRequest {
    /// The protected endpoint the caller wants to reach.
    pub endpoint: String,
    /// Time of the request, Unix milliseconds.
    pub timestamp: i64,
}

impl IronShieldRequest {
    /// A request for `endpoint` stamped with `timestamp`.
    pub fn new(endpoint: String, timestamp: i64) -> (request: Self)
        ensures
            request.endpoint == endpoint,
            request.timestamp == timestamp,
    {
        IronShieldRequest { endpoint, timestamp }
    }
}

} // verus!
