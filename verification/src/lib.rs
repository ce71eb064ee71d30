//! Client-side engine of a proof-of-work challenge/response protocol.
//!
//! For a protected endpoint the client fetches a challenge, searches for a
//! nonce whose hash satisfies the challenge's difficulty predicate, and
//! exchanges the solved challenge for an access token. The search is split
//! among workers by stride and offset; the first success cancels the rest.
//!
//! The library holds the rules and the search. It never touches the
//! network, the file system or the terminal, and it starts no threads: the
//! program around it does that and comes back with plain values.

pub mod cancel;
pub mod challenge;
pub mod client;
pub mod config;
pub mod config_file;
pub mod coordinator;
pub mod display;
pub mod error;
pub mod http;
pub mod oracle;
pub mod partition;
pub mod progress;
pub mod response;
pub mod solve;
pub mod text;
pub mod worker;

pub use challenge::{IronShieldChallenge, IronShieldChallengeResponse, IronShieldRequest,
    IronShieldToken};
pub use client::IronShieldClient;
pub use config::{ClientConfig, USER_AGENT};
pub use progress::ProgressTracker;
pub use solve::SolveConfig;
