//! Settings of the HTTP client and the plain values that cross the
//! transport: what to send, and what came back.

use vstd::prelude::*;
use vstd::string::StringExecFns;
use crate::config::USER_AGENT;

verus! {

/// Builder for the settings of the HTTP client.
#[derive(Debug)]
pub struct HttpClientBuilder {
    timeout: u64,
    user_agent: String,
    accept_invalid_certs: bool,
}

/// Mathematical value of an [`HttpClientBuilder`].
pub struct HttpSettings {
    /// Request timeout in seconds.
    pub timeout: u64,
    /// Value of the `User-Agent` header.
    pub user_agent: Seq<char>,
    /// Whether invalid TLS certificates are accepted.
    pub accept_invalid_certs: bool,
}

impl View for HttpClientBuilder {
    type V = HttpSettings;

    closed spec fn view(&self) -> HttpSettings {
        HttpSettings {
            timeout: self.timeout,
            user_agent: self.user_agent@,
            accept_invalid_certs: self.accept_invalid_certs,
        }
    }
}

/// The settings a builder starts from: thirty seconds, the library's user
/// agent, certificates checked.
pub open spec fn default_settings() -> HttpSettings {
    HttpSettings { timeout: 30, user_agent: USER_AGENT@, accept_invalid_certs: false }
}

impl Default for HttpClientBuilder {
    fn default() -> (builder: Self)
        ensures
            builder@ == default_settings(),
    {
        HttpClientBuilder {
            timeout: 30,
            user_agent: String::from_str(USER_AGENT),
            accept_invalid_certs: false,
        }
    }
}

impl HttpClientBuilder {
    /// A builder with the default settings.
    pub fn new() -> (builder: Self)
        ensures
            builder@ == default_settings(),
    {
        HttpClientBuilder {
            timeout: 30,
            user_agent: String::from_str(USER_AGENT),
            accept_invalid_certs: false,
        }
    }

    /// Sets the request timeout, in seconds.
    pub fn timeout(self, duration: u64) -> (builder: Self)
        ensures
            builder@ == (HttpSettings { timeout: duration, ..self@ }),
    {
        let mut builder: HttpClientBuilder = self;
        builder.timeout = duration;
        builder
    }

    /// Sets the `User-Agent` header.
    pub fn user_agent(self, agent: &str) -> (builder: Self)
        ensures
            builder@ == (HttpSettings { user_agent: agent@, ..self@ }),
    {
        let mut builder: HttpClientBuilder = self;
        builder.user_agent = String::from_str(agent);
        builder
    }

    /// Chooses whether invalid TLS certificates are accepted. Accepting
    /// them is for tests against a local service only.
    pub fn accept_invalid_certs(self, accept: bool) -> (builder: Self)
        ensures
            builder@ == (HttpSettings { accept_invalid_certs: accept, ..self@ }),
    {
        let mut builder: HttpClientBuilder = self;
        builder.accept_invalid_certs = accept;
        builder
    }

    /// The request timeout, in seconds.
    pub fn timeout_secs(&self) -> (seconds: u64)
        ensures
            seconds == self@.timeout,
    {
        self.timeout
    }

    /// The `User-Agent` header.
    pub fn agent(&self) -> (agent: &str)
        ensures
            agent@ == self@.user_agent,
    {
        self.user_agent.as_str()
    }

    /// Whether invalid TLS certificates are accepted.
    pub fn accepts_invalid_certs(&self) -> (accept: bool)
        ensures
            accept == self@.accept_invalid_certs,
    {
        self.accept_invalid_certs
    }
}

/// The media type of every request body.
pub const JSON_CONTENT_TYPE: &'static str = "application/json";

/// One POST request, ready to be sent.
#[derive(Debug)]
pub struct HttpRequest {
    /// Where to send it.
    pub url: String,
    /// Value of the `Content-Type` header.
    pub content_type: &'static str,
    /// The body, a JSON text.
    pub body: String,
}

/// Mathematical value of an [`HttpRequest`].
pub struct HttpRequestView {
    pub url: Seq<char>,
    pub content_type: Seq<char>,
    pub body: Seq<char>,
}

impl View for HttpRequest {
    type V = HttpRequestView;

    open spec fn view(&self) -> HttpRequestView {
        HttpRequestView { url: self.url@, content_type: self.content_type@, body: self.body@ }
    }
}

/// What the transport made of a request.
#[derive(Debug)]
pub enum HttpOutcome {
    /// No response arrived: connecting, TLS or the timeout failed. The text
    /// is the transport's own message.
    Failed(String),
    /// A response arrived.
    Response { status: u16, body: String },
}

/// Mathematical value of an [`HttpOutcome`].
pub enum HttpOutcomeView {
    Failed(Seq<char>),
    Response { status: u16, body: Seq<char> },
}

impl View for HttpOutcome {
    type V = HttpOutcomeView;

    open spec fn view(&self) -> HttpOutcomeView {
        match self {
            HttpOutcome::Failed(message) => HttpOutcomeView::Failed(message@),
            HttpOutcome::Response { status, body } => HttpOutcomeView::Response {
                status: *status,
                body: body@,
            },
        }
    }
}

/// Whether `status` is a success status, 200 to 299.
pub open spec fn is_success_status(status: u16) -> bool {
    200 <= status <= 299
}

} // verus!
