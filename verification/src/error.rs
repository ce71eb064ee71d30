//! The error taxonomy of the client and its mapping to HTTP status codes.

use vstd::prelude::*;
use vstd::string::StringExecFns;
use crate::text::{decimal_digits, decimal_text, join2};

verus! {

pub const STATUS_OK: u16 = 200;

pub const STATUS_BAD_REQUEST: u16 = 400;

pub const STATUS_UNAUTHORIZED: u16 = 401;

pub const STATUS_FORBIDDEN: u16 = 403;

pub const STATUS_NOT_FOUND: u16 = 404;

pub const STATUS_GONE: u16 = 410;

pub const STATUS_UNPROCESSABLE_ENTITY: u16 = 422;

pub const STATUS_INTERNAL_SERVER_ERROR: u16 = 500;

/// Largest accepted distance between a request's timestamp and the
/// server's clock, in milliseconds.
pub const MAX_TIME_DIFF_MS: i64 = 30_000;

/// Everything that can go wrong in the client. Each value carries one
/// human-readable line.
#[derive(Debug)]
pub enum ErrorHandler {
    /// The API answered with an error status.
    Api { status: u16, message: String },
    /// The service refused the caller's credentials.
    AuthenticationError(String),
    /// A challenge could not be processed.
    Challenge(String),
    /// The solver gave up on a challenge.
    ChallengeSolvingError(String),
    /// A solved challenge did not verify.
    ChallengeVerificationError(String),
    /// The configuration is malformed or breaks a constraint.
    ConfigurationError(String),
    /// An unclassified failure inside the service.
    InternalError,
    /// An argument supplied by the caller failed a precondition.
    InvalidRequest(String),
    /// Reading or writing a file failed.
    Io(String),
    /// The transport failed: connect, TLS, timeout or a broken body.
    NetworkError(String),
    /// Every worker ended without a solution.
    NoSolution,
    /// The requested resource does not exist.
    NotFoundError(String),
    /// The caller may not do this.
    PermissionError(String),
    /// The server reported a failure, or its reply lacked a field.
    ProcessingError(String),
    /// The caller exceeded a rate limit.
    RateLimitError(String),
    /// Encoding or decoding JSON failed.
    SerializationError(String),
    /// An operation ran into its time limit, given in whole seconds.
    TimeoutError { seconds: u64 },
}

/// Mathematical value of an [`ErrorHandler`].
pub enum ErrorView {
    Api { status: u16, message: Seq<char> },
    AuthenticationError(Seq<char>),
    Challenge(Seq<char>),
    ChallengeSolvingError(Seq<char>),
    ChallengeVerificationError(Seq<char>),
    ConfigurationError(Seq<char>),
    InternalError,
    InvalidRequest(Seq<char>),
    Io(Seq<char>),
    NetworkError(Seq<char>),
    NoSolution,
    NotFoundError(Seq<char>),
    PermissionError(Seq<char>),
    ProcessingError(Seq<char>),
    RateLimitError(Seq<char>),
    SerializationError(Seq<char>),
    TimeoutError { seconds: u64 },
}

impl View for ErrorHandler {
    type V = ErrorView;

    open spec fn view(&self) -> ErrorView {
        match self {
            ErrorHandler::Api { status, message } => ErrorView::Api {
                status: *status,
                message: message@,
            },
            ErrorHandler::AuthenticationError(message) => ErrorView::AuthenticationError(message@),
            ErrorHandler::Challenge(message) => ErrorView::Challenge(message@),
            ErrorHandler::ChallengeSolvingError(message) => ErrorView::ChallengeSolvingError(message@),
            ErrorHandler::ChallengeVerificationError(message) => ErrorView::ChallengeVerificationError(message@),
            ErrorHandler::ConfigurationError(message) => ErrorView::ConfigurationError(message@),
            ErrorHandler::InternalError => ErrorView::InternalError,
            ErrorHandler::InvalidRequest(message) => ErrorView::InvalidRequest(message@),
            ErrorHandler::Io(message) => ErrorView::Io(message@),
            ErrorHandler::NetworkError(message) => ErrorView::NetworkError(message@),
            ErrorHandler::NoSolution => ErrorView::NoSolution,
            ErrorHandler::NotFoundError(message) => ErrorView::NotFoundError(message@),
            ErrorHandler::PermissionError(message) => ErrorView::PermissionError(message@),
            ErrorHandler::ProcessingError(message) => ErrorView::ProcessingError(message@),
            ErrorHandler::RateLimitError(message) => ErrorView::RateLimitError(message@),
            ErrorHandler::SerializationError(message) => ErrorView::SerializationError(message@),
            ErrorHandler::TimeoutError { seconds } => ErrorView::TimeoutError {
                seconds: *seconds,
            },
        }
    }
}

/// The single line that presents an error to the user.
pub open spec fn error_text(error: ErrorView) -> Seq<char> {
    match error {
        ErrorView::Api { status, message } => "API error ("@ + decimal_digits(status as nat) + "): "@
            + message,
        ErrorView::AuthenticationError(message) => "Authentication failed: "@ + message,
        ErrorView::Challenge(message) => "Challenge processing error: "@ + message,
        ErrorView::ChallengeSolvingError(message) => "Challenge solving failed: "@ + message,
        ErrorView::ChallengeVerificationError(message) => "Challenge verification failed: "@ + message,
        ErrorView::ConfigurationError(message) => "Configuration error: "@ + message,
        ErrorView::InternalError => "Internal server error"@,
        ErrorView::InvalidRequest(message) => "Invalid request format: "@ + message,
        ErrorView::Io(message) => "IO error: "@ + message,
        ErrorView::NetworkError(message) => "Network request failed: "@ + message,
        ErrorView::NoSolution => "No solution found by any thread"@,
        ErrorView::NotFoundError(message) => "Resource not found: "@ + message,
        ErrorView::PermissionError(message) => "Permission denied: "@ + message,
        ErrorView::ProcessingError(message) => "Processing failed: "@ + message,
        ErrorView::RateLimitError(message) => "Rate limit exceeded: "@ + message,
        ErrorView::SerializationError(message) => "Serialization error: "@ + message,
        ErrorView::TimeoutError { seconds } => "Operation timed out after "@ + decimal_digits(
            seconds as nat,
        ) + "s"@,
    }
}

/// The status code and the message with which an error is presented
/// through a response envelope. Malformed input is a bad request, a
/// semantic rejection is unprocessable, everything else is an internal
/// error whose detail is withheld.
pub open spec fn response_parts_of(error: ErrorView) -> (u16, Seq<char>) {
    match error {
        ErrorView::InvalidRequest(message) => (STATUS_BAD_REQUEST, message),
        ErrorView::ProcessingError(message) => (STATUS_UNPROCESSABLE_ENTITY, message),
        ErrorView::SerializationError(_) => (
            STATUS_INTERNAL_SERVER_ERROR,
            "Data processing error"@,
        ),
        ErrorView::InternalError => (STATUS_INTERNAL_SERVER_ERROR, "Internal server error"@),
        _ => (STATUS_INTERNAL_SERVER_ERROR, "Unknown Error"@),
    }
}

impl ErrorHandler {
    /// An error status `status` reported by the API with `message`.
    pub fn api_error(status: u16, message: String) -> (error: Self)
        ensures
            error@ == (ErrorView::Api { status, message: message@ }),
    {
        ErrorHandler::Api { status, message }
    }

    /// Authentication failed for the reason in `message`.
    pub fn authentication_error(message: String) -> (error: Self)
        ensures
            error@ == ErrorView::AuthenticationError(message@),
    {
        ErrorHandler::AuthenticationError(message)
    }

    /// Processing a challenge failed for the reason in `message`.
    pub fn challenge_error(message: String) -> (error: Self)
        ensures
            error@ == ErrorView::Challenge(message@),
    {
        ErrorHandler::Challenge(message)
    }

    /// Solving a challenge failed for the reason in `message`.
    pub fn challenge_solving_error(message: String) -> (error: Self)
        ensures
            error@ == ErrorView::ChallengeSolvingError(message@),
    {
        ErrorHandler::ChallengeSolvingError(message)
    }

    /// Verifying a challenge failed for the reason in `message`.
    pub fn challenge_verification_error(message: String) -> (error: Self)
        ensures
            error@ == ErrorView::ChallengeVerificationError(message@),
    {
        ErrorHandler::ChallengeVerificationError(message)
    }

    /// The configuration is wrong in the way `message` says.
    pub fn config_error(message: String) -> (error: Self)
        ensures
            error@ == ErrorView::ConfigurationError(message@),
    {
        ErrorHandler::ConfigurationError(message)
    }

    /// The transport failed; `message` is the transport's own line.
    pub fn from_network_error(message: String) -> (error: Self)
        ensures
            error@ == ErrorView::NetworkError(message@),
    {
        ErrorHandler::NetworkError(message)
    }

    /// What `message` names was not found.
    pub fn not_found_error(message: String) -> (error: Self)
        ensures
            error@ == ErrorView::NotFoundError(message@),
    {
        ErrorHandler::NotFoundError(message)
    }

    /// Permission was denied for the reason in `message`.
    pub fn permission_error(message: String) -> (error: Self)
        ensures
            error@ == ErrorView::PermissionError(message@),
    {
        ErrorHandler::PermissionError(message)
    }

    /// A rate limit was exceeded as `message` says.
    pub fn rate_limit_error(message: String) -> (error: Self)
        ensures
            error@ == ErrorView::RateLimitError(message@),
    {
        ErrorHandler::RateLimitError(message)
    }

    /// An operation timed out after `seconds` seconds.
    pub fn timeout(seconds: u64) -> (error: Self)
        ensures
            error@ == (ErrorView::TimeoutError { seconds }),
    {
        ErrorHandler::TimeoutError { seconds }
    }

    /// The line that presents this error to the user.
    pub fn to_text(&self) -> (text: String)
        ensures
            text@ == error_text(self@),
    {
        match self {
            ErrorHandler::Api { status, message } => {
                let mut text: String = String::from_str("API error (");
                let code: String = decimal_text(*status as u64);
                text.append(code.as_str());
                text.append("): ");
                text.append(message.as_str());
                text
            },
            ErrorHandler::AuthenticationError(message) => join2("Authentication failed: ", message.as_str()),
            ErrorHandler::Challenge(message) => join2("Challenge processing error: ", message.as_str()),
            ErrorHandler::ChallengeSolvingError(message) => join2("Challenge solving failed: ", message.as_str()),
            ErrorHandler::ChallengeVerificationError(message) => join2("Challenge verification failed: ", message.as_str()),
            ErrorHandler::ConfigurationError(message) => join2("Configuration error: ", message.as_str()),
            ErrorHandler::InternalError => String::from_str("Internal server error"),
            ErrorHandler::InvalidRequest(message) => join2("Invalid request format: ", message.as_str()),
            ErrorHandler::Io(message) => join2("IO error: ", message.as_str()),
            ErrorHandler::NetworkError(message) => join2("Network request failed: ", message.as_str()),
            ErrorHandler::NoSolution => String::from_str("No solution found by any thread"),
            ErrorHandler::NotFoundError(message) => join2("Resource not found: ", message.as_str()),
            ErrorHandler::PermissionError(message) => join2("Permission denied: ", message.as_str()),
            ErrorHandler::ProcessingError(message) => join2("Processing failed: ", message.as_str()),
            ErrorHandler::RateLimitError(message) => join2("Rate limit exceeded: ", message.as_str()),
            ErrorHandler::SerializationError(message) => join2("Serialization error: ", message.as_str()),
            ErrorHandler::TimeoutError { seconds } => {
                let mut text: String = String::from_str("Operation timed out after ");
                let count: String = decimal_text(*seconds);
                text.append(count.as_str());
                text.append("s");
                text
            },
        }
    }

    /// The status code and message for a response envelope.
    pub fn response_parts(&self) -> (parts: (u16, String))
        ensures
            parts.0 == response_parts_of(self@).0,
            parts.1@ == response_parts_of(self@).1,
    {
        match self {
            ErrorHandler::InvalidRequest(message) => (STATUS_BAD_REQUEST, message.clone()),
            ErrorHandler::ProcessingError(message) => (
                STATUS_UNPROCESSABLE_ENTITY,
                message.clone(),
            ),
            ErrorHandler::SerializationError(_) => (
                STATUS_INTERNAL_SERVER_ERROR,
                String::from_str("Data processing error"),
            ),
            ErrorHandler::InternalError => (
                STATUS_INTERNAL_SERVER_ERROR,
                String::from_str("Internal server error"),
            ),
            _ => (STATUS_INTERNAL_SERVER_ERROR, String::from_str("Unknown Error")),
        }
    }
}

/// A fixed protocol failure: its message and the status code under which
/// the service reports it.
#[derive(Debug, Clone, Copy)]
pub struct ErrorInfo {
    pub message: &'static str,
    pub status_code: u16,
}

impl ErrorInfo {
    /// The failure's message.
    pub fn message(&self) -> (message: &'static str)
        ensures
            message == self.message,
    {
        self.message
    }

    /// The failure's status code.
    pub fn status_code(&self) -> (code: u16)
        ensures
            code == self.status_code,
    {
        self.status_code
    }
}

/// The protocol failures that the service distinguishes.
#[derive(Debug, PartialEq, Eq, Structural, Clone, Copy)]
pub enum ProtocolFault {
    /// The request's timestamp is too far from the server's clock.
    ClockSkew,
    /// The endpoint is not an HTTPS URL.
    InvalidEndpoint,
    /// The challenge parameters are malformed.
    InvalidParams,
    /// The submitted nonce does not solve the challenge.
    InvalidSolution,
    /// The challenge is past its expiry.
    ChallengeExpired,
    /// The service could not load its public key.
    PubKeyFail,
    /// The service could not load its signing key.
    SigKeyFail,
    /// A signature did not verify.
    SignatureFail,
}

impl ProtocolFault {
    /// The status code of this failure: 400 for malformed input, 422 for a
    /// semantic rejection, 410 for an expired challenge, 500 for a failure
    /// of the service itself.
    pub open spec fn status_of(self) -> u16 {
        match self {
            ProtocolFault::ClockSkew => STATUS_BAD_REQUEST,
            ProtocolFault::InvalidEndpoint => STATUS_UNPROCESSABLE_ENTITY,
            ProtocolFault::InvalidParams => STATUS_BAD_REQUEST,
            ProtocolFault::InvalidSolution => STATUS_UNPROCESSABLE_ENTITY,
            ProtocolFault::ChallengeExpired => STATUS_GONE,
            ProtocolFault::PubKeyFail => STATUS_INTERNAL_SERVER_ERROR,
            ProtocolFault::SigKeyFail => STATUS_INTERNAL_SERVER_ERROR,
            ProtocolFault::SignatureFail => STATUS_UNPROCESSABLE_ENTITY,
        }
    }

    /// The message of this failure.
    pub open spec fn message_of(self) -> Seq<char> {
        match self {
            ProtocolFault::ClockSkew => "Request timestamp does not match the current time"@,
            ProtocolFault::InvalidEndpoint => "Endpoint must be a valid HTTPS URL"@,
            ProtocolFault::InvalidParams => "Invalid challenge parameters"@,
            ProtocolFault::InvalidSolution => "Invalid solution provided for the challenge"@,
            ProtocolFault::ChallengeExpired => "Challenge has expired"@,
            ProtocolFault::PubKeyFail => "Failed to load public key"@,
            ProtocolFault::SigKeyFail => "Failed to load signing key"@,
            ProtocolFault::SignatureFail => "Signature verification failed"@,
        }
    }

    /// Message and status code of this failure.
    pub fn info(self) -> (info: ErrorInfo)
        ensures
            info.message@ == self.message_of(),
            info.status_code == self.status_of(),
    {
        match self {
            ProtocolFault::ClockSkew => ErrorInfo {
                message: "Request timestamp does not match the current time",
                status_code: STATUS_BAD_REQUEST,
            },
            ProtocolFault::InvalidEndpoint => ErrorInfo {
                message: "Endpoint must be a valid HTTPS URL",
                status_code: STATUS_UNPROCESSABLE_ENTITY,
            },
            ProtocolFault::InvalidParams => ErrorInfo {
                message: "Invalid challenge parameters",
                status_code: STATUS_BAD_REQUEST,
            },
            ProtocolFault::InvalidSolution => ErrorInfo {
                message: "Invalid solution provided for the challenge",
                status_code: STATUS_UNPROCESSABLE_ENTITY,
            },
            ProtocolFault::ChallengeExpired => ErrorInfo {
                message: "Challenge has expired",
                status_code: STATUS_GONE,
            },
            ProtocolFault::PubKeyFail => ErrorInfo {
                message: "Failed to load public key",
                status_code: STATUS_INTERNAL_SERVER_ERROR,
            },
            ProtocolFault::SigKeyFail => ErrorInfo {
                message: "Failed to load signing key",
                status_code: STATUS_INTERNAL_SERVER_ERROR,
            },
            ProtocolFault::SignatureFail => ErrorInfo {
                message: "Signature verification failed",
                status_code: STATUS_UNPROCESSABLE_ENTITY,
            },
        }
    }
}

/// Results of the client's operations.
pub type ResultHandler<T> = Result<T, ErrorHandler>;

} // verus!
