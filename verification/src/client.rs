//! The client facade: the three steps fetch, solve, submit, as values.
//!
//! The library builds each request and reads each reply; sending, waiting
//! and running the solver are left to the program around it, which feeds
//! the outcomes back into [`ValidationFlow`].

use vstd::prelude::*;
use vstd::string::StringExecFns;
use serde_json::Value;
use crate::challenge::{ChallengeView, IronShieldChallenge, IronShieldChallengeResponse,
    IronShieldToken, ResponseView, TokenView};
use crate::config::{ClientConfig, ConfigView};
use crate::error::{ErrorHandler, ErrorView};
use crate::http::{HttpClientBuilder, HttpOutcome, HttpOutcomeView, HttpRequest, HttpRequestView,
    HttpSettings, JSON_CONTENT_TYPE};
use crate::response::{body_of, challenge_in, envelope_message, envelope_status, json_parse,
    read_reply, reply_result, request_body, request_json, response_body, response_json,
    token_in, ApiResponse, JsonMembers};
use crate::text::{join2, starts_with};

verus! {

/// Path of the endpoint that issues challenges.
pub const REQUEST_PATH: &'static str = "/request";

/// Path of the endpoint that takes solutions.
pub const RESPONSE_PATH: &'static str = "/response";

/// A client of the API: its configuration and the settings of its HTTP
/// client.
pub struct IronShieldClient {
    config: ClientConfig,
    http: HttpClientBuilder,
}

/// The challenge that a reply carries, where `parsed` is what the JSON
/// parser made of the reply's body: the reply must arrive with a success
/// status, hold JSON, report status 200 in its envelope, and carry a
/// challenge that reads as one.
pub open spec fn challenge_reply(
    outcome: HttpOutcomeView,
    parsed: Result<JsonMembers, Seq<char>>,
) -> Result<
    ChallengeView,
    ErrorView,
> {
    match reply_result(outcome, parsed) {
        Err(error) => Err(error),
        Ok(value) => if envelope_status(value) == 200 && challenge_in(value) is Some {
            Ok(challenge_in(value)->0)
        } else {
            Err(ErrorView::ProcessingError(envelope_message(value)))
        },
    }
}

/// The token that a reply carries, where `parsed` is what the JSON parser
/// made of the reply's body.
pub open spec fn token_reply(
    outcome: HttpOutcomeView,
    parsed: Result<JsonMembers, Seq<char>>,
) -> Result<
    TokenView,
    ErrorView,
> {
    match reply_result(outcome, parsed) {
        Err(error) => Err(error),
        Ok(value) => if envelope_status(value) == 200 && token_in(value) is Some {
            Ok(token_in(value)->0)
        } else {
            Err(ErrorView::ProcessingError(envelope_message(value)))
        },
    }
}

/// The request that posts `body`, if it could be encoded, to `path` under
/// `base`.
pub open spec fn post_request(
    base: Seq<char>,
    path: Seq<char>,
    body: Result<Seq<char>, Seq<char>>,
) -> Result<HttpRequestView, ErrorView> {
    match body {
        Ok(text) => Ok(
            HttpRequestView { url: base + path, content_type: JSON_CONTENT_TYPE@, body: text },
        ),
        Err(message) => Err(ErrorView::SerializationError(message)),
    }
}

impl IronShieldClient {
    /// The client's configuration.
    pub closed spec fn config_view(&self) -> ConfigView {
        self.config@
    }

    /// The settings of the client's HTTP client.
    pub closed spec fn settings(&self) -> HttpSettings {
        self.http@
    }

    /// A client for `config`. The base URL must begin with `https://`. The
    /// HTTP client takes the configured timeout and user agent and checks
    /// certificates.
    pub fn new(config: ClientConfig) -> (result: Result<Self, ErrorHandler>)
        ensures
            match result {
                Ok(client) => {
                    &&& "https://"@.is_prefix_of(config.api_base_url@)
                    &&& client.config_view() == config@
                    &&& client.settings() == (HttpSettings {
                        timeout: config.timeout,
                        user_agent: config.user_agent@,
                        accept_invalid_certs: false,
                    })
                },
                Err(error) => {
                    &&& !"https://"@.is_prefix_of(config.api_base_url@)
                    &&& error@ == ErrorView::ConfigurationError(
                        "Endpoint must be a valid HTTPS URL"@,
                    )
                },
            },
    {
        if !starts_with(config.api_base_url.as_str(), "https://") {
            return Err(
                ErrorHandler::config_error(String::from_str("Endpoint must be a valid HTTPS URL")),
            );
        }
        let http: HttpClientBuilder = HttpClientBuilder::new().timeout(config.timeout).user_agent(
            config.user_agent.as_str(),
        );
        Ok(IronShieldClient { config, http })
    }

    /// The client's configuration.
    pub fn config(&self) -> (config: &ClientConfig)
        ensures
            config@ == self.config_view(),
    {
        &self.config
    }

    /// The settings of the client's HTTP client.
    pub fn http_settings(&self) -> (http: &HttpClientBuilder)
        ensures
            http@ == self.settings(),
    {
        &self.http
    }

    /// The request that asks for a challenge for `endpoint` at the time
    /// `timestamp`, in Unix milliseconds.
    pub fn challenge_request(&self, endpoint: &str, timestamp: i64) -> (result: Result<
        HttpRequest,
        ErrorHandler,
    >)
        ensures
            match result {
                Ok(request) => post_request(
                    self.config_view().api_base_url,
                    REQUEST_PATH@,
                    request_json(endpoint@, timestamp as int),
                ) == Ok::<HttpRequestView, ErrorView>(request@),
                Err(error) => post_request(
                    self.config_view().api_base_url,
                    REQUEST_PATH@,
                    request_json(endpoint@, timestamp as int),
                ) == Err::<HttpRequestView, ErrorView>(error@),
            },
    {
        match request_body(endpoint, timestamp) {
            Ok(body) => Ok(
                HttpRequest {
                    url: join2(self.config.api_base_url.as_str(), REQUEST_PATH),
                    content_type: JSON_CONTENT_TYPE,
                    body,
                },
            ),
            Err(error) => Err(error),
        }
    }

    /// The request that submits `solution`.
    pub fn solution_request(&self, solution: &IronShieldChallengeResponse) -> (result: Result<
        HttpRequest,
        ErrorHandler,
    >)
        ensures
            match result {
                Ok(request) => post_request(
                    self.config_view().api_base_url,
                    RESPONSE_PATH@,
                    response_json(solution@),
                ) == Ok::<HttpRequestView, ErrorView>(request@),
                Err(error) => post_request(
                    self.config_view().api_base_url,
                    RESPONSE_PATH@,
                    response_json(solution@),
                ) == Err::<HttpRequestView, ErrorView>(error@),
            },
    {
        match response_body(solution) {
            Ok(body) => Ok(
                HttpRequest {
                    url: join2(self.config.api_base_url.as_str(), RESPONSE_PATH),
                    content_type: JSON_CONTENT_TYPE,
                    body,
                },
            ),
            Err(error) => Err(error),
        }
    }

    /// Reads the challenge out of the reply to a challenge request, as
    /// [`challenge_reply`] says.
    pub fn read_challenge(&self, outcome: HttpOutcome) -> (result: Result<
        IronShieldChallenge,
        ErrorHandler,
    >)
        ensures
            match result {
                Ok(challenge) => challenge_reply(outcome@, json_parse(body_of(outcome@))) == Ok::<
                    ChallengeView,
                    ErrorView,
                >(challenge@),
                Err(error) => challenge_reply(outcome@, json_parse(body_of(outcome@))) == Err::<
                    ChallengeView,
                    ErrorView,
                >(error@),
            },
    {
        let value: Value = match read_reply(outcome) {
            Ok(value) => value,
            Err(error) => {
                return Err(error);
            },
        };
        match ApiResponse::from_json(value) {
            Ok(envelope) => envelope.extract_challenge(),
            Err(error) => Err(error),
        }
    }

    /// Reads the token out of the reply to a submitted solution, as
    /// [`token_reply`] says.
    pub fn read_token(&self, outcome: HttpOutcome) -> (result: Result<IronShieldToken, ErrorHandler>)
        ensures
            match result {
                Ok(token) => token_reply(outcome@, json_parse(body_of(outcome@))) == Ok::<
                    TokenView,
                    ErrorView,
                >(token@),
                Err(error) => token_reply(outcome@, json_parse(body_of(outcome@))) == Err::<
                    TokenView,
                    ErrorView,
                >(error@),
            },
    {
        let value: Value = match read_reply(outcome) {
            Ok(value) => value,
            Err(error) => {
                return Err(error);
            },
        };
        match ApiResponse::from_json(value) {
            Ok(envelope) => envelope.extract_token(),
            Err(error) => Err(error),
        }
    }
}

/// Where a validation stands.
#[derive(Debug, PartialEq, Eq, Structural, Clone, Copy)]
pub enum FlowStage {
    /// The challenge request is out; its reply is awaited.
    AwaitingChallenge,
    /// The solver runs; its result is awaited.
    Solving,
    /// The solution is out; its reply is awaited.
    AwaitingToken,
    /// The validation has ended, with a token or an error.
    Finished,
}

/// Something the validation was waiting for.
#[derive(Debug)]
pub enum FlowEvent {
    /// The transport's outcome for the last request.
    Reply(HttpOutcome),
    /// The solver's result.
    Solved(Result<IronShieldChallengeResponse, ErrorHandler>),
}

/// What to do next.
#[derive(Debug)]
pub enum FlowAction {
    /// Send this request and come back with the outcome.
    Send(HttpRequest),
    /// Solve this challenge and come back with the result.
    Solve(IronShieldChallenge),
    /// Return this token: the validation succeeded.
    Done(IronShieldToken),
    /// Return this error: the validation failed.
    Abort(ErrorHandler),
}

/// Mathematical value of a [`FlowAction`].
pub enum FlowActionView {
    Send(HttpRequestView),
    Solve(ChallengeView),
    Done(TokenView),
    Abort(ErrorView),
}

impl View for FlowAction {
    type V = FlowActionView;

    open spec fn view(&self) -> FlowActionView {
        match self {
            FlowAction::Send(request) => FlowActionView::Send(request@),
            FlowAction::Solve(challenge) => FlowActionView::Solve(challenge@),
            FlowAction::Done(token) => FlowActionView::Done(token@),
            FlowAction::Abort(error) => FlowActionView::Abort(error@),
        }
    }
}

/// The stage after `action` was handed out at `stage`.
pub open spec fn stage_after(stage: FlowStage, action: FlowActionView) -> FlowStage {
    match action {
        FlowActionView::Send(_) => if stage == FlowStage::Solving {
            FlowStage::AwaitingToken
        } else {
            FlowStage::AwaitingChallenge
        },
        FlowActionView::Solve(_) => FlowStage::Solving,
        FlowActionView::Done(_) => FlowStage::Finished,
        FlowActionView::Abort(_) => FlowStage::Finished,
    }
}

/// The action for a step that gave `result`: go on with `next` on success,
/// abort with the step's own error otherwise.
pub open spec fn go_on<T>(result: Result<T, ErrorView>, next: spec_fn(T) -> FlowActionView)
    -> FlowActionView {
    match result {
        Ok(value) => next(value),
        Err(error) => FlowActionView::Abort(error),
    }
}

/// The message for an event that the current stage does not wait for.
pub open spec fn unexpected_event_text() -> Seq<char> {
    "Unexpected event for this step of the validation"@
}

/// One validation of an endpoint: fetch a challenge, solve it, submit the
/// solution. The steps run in this order, and the first error ends the
/// validation and is returned as it is.
pub struct ValidationFlow {
    stage: FlowStage,
}

impl ValidationFlow {
    /// Where the validation stands.
    pub closed spec fn stage(&self) -> FlowStage {
        self.stage
    }

    /// Where the validation stands.
    pub fn current_stage(&self) -> (stage: FlowStage)
        ensures
            stage == self.stage(),
    {
        self.stage
    }

    /// Starts a validation of `endpoint` at the time `timestamp`, in Unix
    /// milliseconds: the first action sends the challenge request.
    pub fn begin(client: &IronShieldClient, endpoint: &str, timestamp: i64) -> (started: (
        Self,
        FlowAction,
    ))
        ensures
            started.1@ == go_on(
                post_request(
                    client.config_view().api_base_url,
                    REQUEST_PATH@,
                    request_json(endpoint@, timestamp as int),
                ),
                |request: HttpRequestView| FlowActionView::Send(request),
            ),
            started.0.stage() == stage_after(FlowStage::AwaitingChallenge, started.1@),
    {
        match client.challenge_request(endpoint, timestamp) {
            Ok(request) => (
                ValidationFlow { stage: FlowStage::AwaitingChallenge },
                FlowAction::Send(request),
            ),
            Err(error) => (ValidationFlow { stage: FlowStage::Finished }, FlowAction::Abort(error)),
        }
    }

    /// Takes what the validation was waiting for and says what to do next.
    ///
    /// A reply to the challenge request leads to solving the challenge it
    /// carries; the solver's response leads to submitting it; the reply to
    /// that ends the validation with the token. An error of any step, the
    /// solver's included, ends the validation with that error. An event
    /// that the stage does not wait for ends it with an invalid-request
    /// error.
    pub fn advance(&mut self, client: &IronShieldClient, event: FlowEvent) -> (action: FlowAction)
        ensures
            final(self).stage() == stage_after(old(self).stage(), action@),
            action@ == match (old(self).stage(), event) {
                (FlowStage::AwaitingChallenge, FlowEvent::Reply(outcome)) => go_on(
                    challenge_reply(outcome@, json_parse(body_of(outcome@))),
                    |challenge: ChallengeView| FlowActionView::Solve(challenge),
                ),
                (FlowStage::Solving, FlowEvent::Solved(Ok(response))) => go_on(
                    post_request(
                        client.config_view().api_base_url,
                        RESPONSE_PATH@,
                        response_json(response@),
                    ),
                    |request: HttpRequestView| FlowActionView::Send(request),
                ),
                (FlowStage::Solving, FlowEvent::Solved(Err(error))) => FlowActionView::Abort(
                    error@,
                ),
                (FlowStage::AwaitingToken, FlowEvent::Reply(outcome)) => go_on(
                    token_reply(outcome@, json_parse(body_of(outcome@))),
                    |token: TokenView| FlowActionView::Done(token),
                ),
                _ => FlowActionView::Abort(ErrorView::InvalidRequest(unexpected_event_text())),
            },
    {
        let stage: FlowStage = self.stage;
        let action: FlowAction = match event {
            FlowEvent::Reply(outcome) => match stage {
                FlowStage::AwaitingChallenge => match client.read_challenge(outcome) {
                    Ok(challenge) => FlowAction::Solve(challenge),
                    Err(error) => FlowAction::Abort(error),
                },
                FlowStage::AwaitingToken => match client.read_token(outcome) {
                    Ok(token) => FlowAction::Done(token),
                    Err(error) => FlowAction::Abort(error),
                },
                _ => unexpected_event(),
            },
            FlowEvent::Solved(result) => match stage {
                FlowStage::Solving => match result {
                    Ok(response) => match client.solution_request(&response) {
                        Ok(request) => FlowAction::Send(request),
                        Err(error) => FlowAction::Abort(error),
                    },
                    Err(error) => FlowAction::Abort(error),
                },
                _ => unexpected_event(),
            },
        };
        self.stage = match &action {
            FlowAction::Send(_) => match stage {
                FlowStage::Solving => FlowStage::AwaitingToken,
                _ => FlowStage::AwaitingChallenge,
            },
            FlowAction::Solve(_) => FlowStage::Solving,
            FlowAction::Done(_) => FlowStage::Finished,
            FlowAction::Abort(_) => FlowStage::Finished,
        };
        action
    }
}

/// The action for an event that the current stage does not wait for.
fn unexpected_event() -> (action: FlowAction)
    ensures
        action@ == FlowActionView::Abort(ErrorView::InvalidRequest(unexpected_event_text())),
{
    FlowAction::Abort(
        ErrorHandler::InvalidRequest(
            String::from_str("Unexpected event for this step of the validation"),
        ),
    )
}

} // verus!
