use ironshield::cancel::CancellationFlag;
use ironshield::challenge::{
    IronShieldChallenge, IronShieldChallengeResponse, IronShieldRequest, IronShieldToken,
};
use ironshield::client::{
    FlowAction, FlowEvent, FlowStage, IronShieldClient, ValidationFlow, REQUEST_PATH,
    RESPONSE_PATH,
};
use ironshield::config::ClientConfig;
use ironshield::coordinator::{CoordinatorAction, SolveCoordinator};
use ironshield::error::ErrorHandler;
use ironshield::http::{HttpClientBuilder, HttpOutcome, JSON_CONTENT_TYPE};
use ironshield::oracle::{ChallengeOracle, HashOracle};
use ironshield::response::{read_reply, request_body, response_body, ApiResponse};
use ironshield::solve::{run_worker, solve_single_threaded, NoTracker, WorkerResult};
use serde_json::Value;

const SEED: &str = "a6e5f14c9622c88af274ec7247f028eb";

fn outside_challenge(difficulty: u64, seed: &str) -> ironshield_types::IronShieldChallenge {
    ironshield_types::IronShieldChallenge {
        random_nonce: seed.to_string(),
        created_time: 1_755_401_345_880,
        expiration_time: 1_755_401_375_880,
        website_id: "https://example.com".to_string(),
        challenge_param: ironshield_types::IronShieldChallenge::difficulty_to_challenge_param(
            difficulty,
        ),
        recommended_attempts: difficulty * 2,
        public_key: [7u8; 32],
        challenge_signature: [9u8; 64],
    }
}

fn own(outside: &ironshield_types::IronShieldChallenge) -> IronShieldChallenge {
    IronShieldChallenge {
        random_nonce: outside.random_nonce.clone(),
        created_time: outside.created_time,
        expiration_time: outside.expiration_time,
        website_id: outside.website_id.clone(),
        challenge_param: outside.challenge_param,
        recommended_attempts: outside.recommended_attempts,
        public_key: outside.public_key,
        challenge_signature: outside.challenge_signature,
    }
}

fn with_param(param: [u8; 32]) -> IronShieldChallenge {
    let mut challenge = own(&outside_challenge(1, SEED));
    challenge.challenge_param = param;
    challenge
}

fn envelope(status: Option<u64>, message: Option<&str>, field: Option<(&str, Value)>) -> Value {
    let mut map = serde_json::Map::new();
    if let Some(status) = status {
        map.insert("status".to_string(), Value::from(status));
    }
    if let Some(message) = message {
        map.insert("message".to_string(), Value::from(message));
    }
    if let Some((key, value)) = field {
        map.insert(key.to_string(), value);
    }
    Value::Object(map)
}

fn token_value() -> Value {
    let token = ironshield_types::IronShieldToken::new([1u8; 64], 1_755_404_945_880, [2u8; 32], [3u8; 64]);
    serde_json::to_value(&token).unwrap()
}

fn processing_message(error: ErrorHandler) -> String {
    match error {
        ErrorHandler::ProcessingError(message) => message,
        other => panic!("expected a processing error, got {:?}", other),
    }
}

fn reply(status: u16, body: &Value) -> HttpOutcome {
    HttpOutcome::Response { status, body: body.to_string() }
}

fn client() -> IronShieldClient {
    IronShieldClient::new(ClientConfig::default()).unwrap()
}

#[test]
fn single_threaded_solve_agrees_with_ironshield_core() {
    for (difficulty, seed) in [(1u64, SEED), (50, SEED), (800, "00ff"), (3000, "deadbeefcafe1234")] {
        let outside = outside_challenge(difficulty, seed);
        let expected = ironshield_core::find_solution(&outside, None, None, None, None).unwrap();
        let challenge = own(&outside);
        let response = solve_single_threaded(&challenge, 64).unwrap();
        assert_eq!(response.solution, expected.solution);
        assert_eq!(response.solved_challenge.random_nonce, seed);
        assert_eq!(response.solved_challenge.challenge_signature, [9u8; 64]);
        assert!(ironshield_core::verify_ironshield_solution(&expected));
        let oracle = ChallengeOracle::new(challenge);
        assert!(oracle.satisfies(response.solution));
        for earlier in 0..response.solution {
            assert!(!oracle.satisfies(earlier));
        }
    }
}

#[test]
fn each_worker_finds_the_first_solution_of_its_progression() {
    let outside = outside_challenge(200, SEED);
    let challenge = own(&outside);
    let oracle = ChallengeOracle::new(challenge.clone());
    for workers in [2usize, 3, 5] {
        for worker in 0..workers {
            let expected =
                ironshield_core::find_solution(&outside, None, Some(worker), Some(workers), None)
                    .unwrap()
                    .solution;
            let result = run_worker(&challenge, worker, workers, 16, None, None::<&NoTracker>);
            let found = match result {
                WorkerResult::Solved(response) => response.solution,
                other => panic!("worker {} of {} ended with {:?}", worker, workers, other),
            };
            assert_eq!(found, expected);
            assert_eq!(found as usize % workers, worker);
            assert!(oracle.satisfies(found));
            assert_eq!(oracle.first_solution(worker as i64, workers as i64, found + 1), Some(found));
            assert_eq!(oracle.first_solution(worker as i64, workers as i64, found), None);
        }
    }
}

#[test]
fn trivial_threshold_accepts_the_first_nonce() {
    let challenge = with_param([0xFF; 32]);
    assert_eq!(solve_single_threaded(&challenge, 8).unwrap().solution, 0);
    match run_worker(&challenge, 3, 4, 8, None, None::<&NoTracker>) {
        WorkerResult::Solved(response) => assert_eq!(response.solution, 3),
        other => panic!("unexpected {:?}", other),
    }
}

#[test]
fn impossible_threshold_rejects_every_nonce() {
    let oracle = ChallengeOracle::new(with_param([0u8; 32]));
    for nonce in [0i64, 1, 42, i64::MAX] {
        assert!(!oracle.satisfies(nonce));
    }
    assert_eq!(oracle.first_solution(0, 1, 5_000), None);
    assert_eq!(oracle.first_solution(i64::MAX - 20, 7, i64::MAX - 6), None);
}

#[test]
fn random_nonce_that_is_no_hex_solves_nothing() {
    let mut challenge = with_param([0xFF; 32]);
    challenge.random_nonce = "not hex".to_string();
    let oracle = ChallengeOracle::new(challenge);
    assert!(!oracle.satisfies(0));
    assert_eq!(oracle.first_solution(0, 1, 100), None);
}

#[test]
fn cancelled_worker_reports_cancellation() {
    let challenge = with_param([0u8; 32]);
    let flag = CancellationFlag::new();
    flag.cancel();
    let result = run_worker(&challenge, 1, 4, 32, Some(&flag), None::<&NoTracker>);
    assert!(matches!(result, WorkerResult::Cancelled));
}

#[test]
fn coordinator_delivers_the_first_success_only() {
    let challenge = with_param([0xFF; 32]);
    let flag = CancellationFlag::new();
    let mut coordinator = SolveCoordinator::new(challenge.clone(), 4);
    assert_eq!(coordinator.pending(), 4);
    assert!(!coordinator.is_cancelled());

    let failed = WorkerResult::Failed(ErrorHandler::InternalError);
    assert!(matches!(coordinator.on_result(failed, &flag), CoordinatorAction::Await));
    assert_eq!(coordinator.pending(), 3);
    assert!(!flag.is_cancelled());

    let winner = WorkerResult::Solved(IronShieldChallengeResponse::new(challenge.clone(), 19));
    match coordinator.on_result(winner, &flag) {
        CoordinatorAction::Deliver(response) => {
            assert_eq!(response.solution, 19);
            assert_eq!(response.solved_challenge.random_nonce, SEED);
        },
        other => panic!("expected a delivery, got {:?}", other),
    }
    assert!(flag.is_cancelled());
    assert!(coordinator.is_cancelled());
    assert!(coordinator.is_finished());

    // A second success arrives late: it is discarded, and the flag stays up.
    let late = WorkerResult::Solved(IronShieldChallengeResponse::new(challenge.clone(), 2));
    assert!(matches!(coordinator.on_result(late, &flag), CoordinatorAction::Discard));
    assert!(matches!(
        coordinator.on_result(WorkerResult::Cancelled, &flag),
        CoordinatorAction::Discard
    ));
    assert!(coordinator.is_cancelled());
    assert!(flag.is_cancelled());
}

#[test]
fn coordinator_gives_up_when_every_worker_ended_without_success() {
    let challenge = with_param([0u8; 32]);
    let flag = CancellationFlag::new();
    let mut coordinator = SolveCoordinator::new(challenge.clone(), 3);
    // A reported nonce that does not solve the challenge counts as a failure.
    let bogus = WorkerResult::Solved(IronShieldChallengeResponse::new(challenge.clone(), 5));
    assert!(matches!(coordinator.on_result(bogus, &flag), CoordinatorAction::Await));
    assert!(matches!(
        coordinator.on_result(WorkerResult::Cancelled, &flag),
        CoordinatorAction::Await
    ));
    let last = WorkerResult::Failed(ErrorHandler::challenge_solving_error("x".to_string()));
    match coordinator.on_result(last, &flag) {
        CoordinatorAction::GiveUp(error) => assert!(matches!(error, ErrorHandler::NoSolution)),
        other => panic!("expected to give up, got {:?}", other),
    }
    assert!(coordinator.is_finished());
    assert!(!coordinator.is_cancelled());
    assert!(!flag.is_cancelled());
    assert!(matches!(
        coordinator.on_result(WorkerResult::Cancelled, &flag),
        CoordinatorAction::Discard
    ));
}

#[test]
fn coordinator_rejects_a_negative_nonce() {
    let challenge = with_param([0xFF; 32]);
    let flag = CancellationFlag::new();
    let mut coordinator = SolveCoordinator::new(challenge.clone(), 1);
    let negative = WorkerResult::Solved(IronShieldChallengeResponse::new(challenge, -1));
    assert!(matches!(coordinator.on_result(negative, &flag), CoordinatorAction::GiveUp(_)));
    assert!(!flag.is_cancelled());
}

#[test]
fn envelope_defaults_apply_to_missing_and_ill_typed_fields() {
    let response = ApiResponse::from_json(envelope(Some(200), Some("Success"), None)).unwrap();
    assert_eq!(response.status, 200);
    assert_eq!(response.message, "Success");
    assert!(response.is_success());
    assert_eq!(response.data, envelope(Some(200), Some("Success"), None));

    let empty = ApiResponse::from_json(envelope(None, None, None)).unwrap();
    assert_eq!(empty.status, 0);
    assert_eq!(empty.message, "No message");
    assert!(!empty.is_success());

    let ill: Value = serde_json::from_str(r#"{"status": "200", "message": 7}"#).unwrap();
    let ill = ApiResponse::from_json(ill).unwrap();
    assert_eq!(ill.status, 0);
    assert_eq!(ill.message, "No message");

    let large = ApiResponse::from_json(envelope(Some(65_736), Some("m"), None)).unwrap();
    assert_eq!(large.status, 0);
    let top = ApiResponse::from_json(envelope(Some(65_535), Some("m"), None)).unwrap();
    assert_eq!(top.status, 65_535);
    let negative: Value = serde_json::from_str(r#"{"status": -200}"#).unwrap();
    assert_eq!(ApiResponse::from_json(negative).unwrap().status, 0);
    let array: Value = serde_json::from_str(r#"[200, "x"]"#).unwrap();
    let array = ApiResponse::from_json(array).unwrap();
    assert_eq!(array.status, 0);
    assert_eq!(array.message, "No message");
}

#[test]
fn challenge_is_extracted_from_a_successful_envelope_only() {
    let outside = outside_challenge(1000, SEED);
    let field = serde_json::to_value(&outside).unwrap();

    let ok = ApiResponse::from_json(envelope(Some(200), Some("ok"), Some(("challenge", field.clone()))))
        .unwrap();
    let challenge = ok.extract_challenge().unwrap();
    assert_eq!(challenge.random_nonce, outside.random_nonce);
    assert_eq!(challenge.created_time, outside.created_time);
    assert_eq!(challenge.expiration_time, outside.expiration_time);
    assert_eq!(challenge.website_id, outside.website_id);
    assert_eq!(challenge.challenge_param, outside.challenge_param);
    assert_eq!(challenge.recommended_attempts, 2000);
    assert_eq!(challenge.public_key, outside.public_key);
    assert_eq!(challenge.challenge_signature, outside.challenge_signature);

    let rejected =
        ApiResponse::from_json(envelope(Some(422), Some("Invalid endpoint"), Some(("challenge", field.clone()))))
            .unwrap();
    assert_eq!(processing_message(rejected.extract_challenge().unwrap_err()), "Invalid endpoint");

    let missing = ApiResponse::from_json(envelope(Some(200), Some("nothing here"), None)).unwrap();
    assert_eq!(processing_message(missing.extract_challenge().unwrap_err()), "nothing here");

    let wrong_key =
        ApiResponse::from_json(envelope(Some(200), Some("a token"), Some(("token", field.clone()))))
            .unwrap();
    assert_eq!(processing_message(wrong_key.extract_challenge().unwrap_err()), "a token");

    let malformed = ApiResponse::from_json(envelope(
        Some(200),
        Some("bad field"),
        Some(("challenge", Value::from("not a challenge"))),
    ))
    .unwrap();
    assert_eq!(processing_message(malformed.extract_challenge().unwrap_err()), "bad field");

    let silent = ApiResponse::from_json(envelope(Some(500), None, None)).unwrap();
    assert_eq!(processing_message(silent.extract_challenge().unwrap_err()), "No message");
}

#[test]
fn token_is_extracted_from_a_successful_envelope_only() {
    let ok = ApiResponse::from_json(envelope(Some(200), Some("ok"), Some(("token", token_value()))))
        .unwrap();
    let token: IronShieldToken = ok.extract_token().unwrap();
    assert_eq!(token.challenge_signature, [1u8; 64]);
    assert_eq!(token.valid_for, 1_755_404_945_880);
    assert_eq!(token.public_key, [2u8; 32]);
    assert_eq!(token.auth_signature, [3u8; 64]);

    let missing = ApiResponse::from_json(envelope(Some(200), Some("no token"), None)).unwrap();
    assert_eq!(processing_message(missing.extract_token().unwrap_err()), "no token");
    let malformed =
        ApiResponse::from_json(envelope(Some(200), Some("odd"), Some(("token", Value::from(5)))))
            .unwrap();
    assert_eq!(processing_message(malformed.extract_token().unwrap_err()), "odd");
}

#[test]
fn server_rejecting_a_solution_is_a_processing_error() {
    let body = envelope(Some(422), Some("Invalid solution"), None);
    let error = client().read_token(reply(200, &body)).unwrap_err();
    assert_eq!(processing_message(error), "Invalid solution");
}

#[test]
fn replies_are_read_by_status_and_body() {
    let body = envelope(Some(200), Some("ok"), None);
    assert_eq!(read_reply(reply(200, &body)).unwrap(), body);
    assert_eq!(read_reply(reply(299, &body)).unwrap(), body);
    for status in [199u16, 300, 404, 500, 0, u16::MAX] {
        let message = processing_message(read_reply(reply(status, &body)).unwrap_err());
        assert_eq!(message, format!("API request failed with status: {}", status));
    }
    match read_reply(HttpOutcome::Response { status: 200, body: "<html>".to_string() }).unwrap_err() {
        ErrorHandler::NetworkError(message) => assert!(!message.is_empty()),
        other => panic!("expected a network error, got {:?}", other),
    }
    match read_reply(HttpOutcome::Failed("connection refused".to_string())).unwrap_err() {
        ErrorHandler::NetworkError(message) => assert_eq!(message, "connection refused"),
        other => panic!("expected a network error, got {:?}", other),
    }
}

#[test]
fn request_bodies_are_the_wire_json() {
    let body = request_body("https://example.com/protected", 1_704_067_200_000).unwrap();
    assert_eq!(body, r#"{"endpoint":"https://example.com/protected","timestamp":1704067200000}"#);
    let request = IronShieldRequest::new("https://e.com".to_string(), 5);
    assert_eq!(request.endpoint, "https://e.com");
    assert_eq!(request.timestamp, 5);

    let outside = outside_challenge(10, SEED);
    let response = IronShieldChallengeResponse::new(own(&outside), 187_453);
    let body = response_body(&response).unwrap();
    let expected = serde_json::to_string(&ironshield_types::IronShieldChallengeResponse::new(
        outside, 187_453,
    ))
    .unwrap();
    assert_eq!(body, expected);
    let parsed: ironshield_types::IronShieldChallengeResponse = serde_json::from_str(&body).unwrap();
    assert_eq!(parsed.solution, 187_453);
    assert_eq!(parsed.solved_challenge.random_nonce, SEED);
}

#[test]
fn client_needs_an_https_base_url() {
    match IronShieldClient::new(ClientConfig::testing()) {
        Err(ErrorHandler::ConfigurationError(message)) => {
            assert_eq!(message, "Endpoint must be a valid HTTPS URL")
        },
        _ => panic!("the testing profile must be refused"),
    }
    let mut config = ClientConfig::default();
    config.timeout = 45;
    config.user_agent = "agent/2".to_string();
    let client = IronShieldClient::new(config).unwrap();
    assert_eq!(client.config().timeout, 45);
    assert_eq!(client.http_settings().timeout_secs(), 45);
    assert_eq!(client.http_settings().agent(), "agent/2");
    assert!(!client.http_settings().accepts_invalid_certs());
}

#[test]
fn http_builder_keeps_what_it_is_given() {
    let builder = HttpClientBuilder::new();
    assert_eq!(builder.timeout_secs(), 30);
    assert_eq!(builder.agent(), ironshield::USER_AGENT);
    assert!(!builder.accepts_invalid_certs());
    let builder = builder.timeout(5).user_agent("x/1").accept_invalid_certs(true);
    assert_eq!(builder.timeout_secs(), 5);
    assert_eq!(builder.agent(), "x/1");
    assert!(builder.accepts_invalid_certs());
    let default = HttpClientBuilder::default();
    assert_eq!(default.timeout_secs(), 30);
}

#[test]
fn requests_go_to_the_two_paths() {
    let client = client();
    let request = client.challenge_request("https://example.com/protected", 17).unwrap();
    assert_eq!(request.url, "https://api.ironshield.cloud/request");
    assert_eq!(request.content_type, "application/json");
    assert_eq!(request.body, r#"{"endpoint":"https://example.com/protected","timestamp":17}"#);
    let response = IronShieldChallengeResponse::new(own(&outside_challenge(10, SEED)), 3);
    let request = client.solution_request(&response).unwrap();
    assert_eq!(request.url, "https://api.ironshield.cloud/response");
    assert_eq!(request.body, response_body(&response).unwrap());
    assert_eq!(REQUEST_PATH, "/request");
    assert_eq!(RESPONSE_PATH, "/response");
    assert_eq!(JSON_CONTENT_TYPE, "application/json");
}

#[test]
fn validation_runs_fetch_solve_submit() {
    let client = client();
    let (mut flow, first) = ValidationFlow::begin(&client, "https://example.com/protected", 1);
    assert_eq!(flow.current_stage(), FlowStage::AwaitingChallenge);
    match first {
        FlowAction::Send(request) => assert!(request.url.ends_with("/request")),
        other => panic!("unexpected {:?}", other),
    }

    let outside = outside_challenge(1, SEED);
    let body = envelope(
        Some(200),
        Some("ok"),
        Some(("challenge", serde_json::to_value(&outside).unwrap())),
    );
    let challenge = match flow.advance(&client, FlowEvent::Reply(reply(200, &body))) {
        FlowAction::Solve(challenge) => challenge,
        other => panic!("unexpected {:?}", other),
    };
    assert_eq!(flow.current_stage(), FlowStage::Solving);
    assert_eq!(challenge.random_nonce, SEED);

    let solved = solve_single_threaded(&challenge, 32);
    match flow.advance(&client, FlowEvent::Solved(solved)) {
        FlowAction::Send(request) => assert!(request.url.ends_with("/response")),
        other => panic!("unexpected {:?}", other),
    }
    assert_eq!(flow.current_stage(), FlowStage::AwaitingToken);

    let body = envelope(Some(200), Some("ok"), Some(("token", token_value())));
    match flow.advance(&client, FlowEvent::Reply(reply(200, &body))) {
        FlowAction::Done(token) => assert_eq!(token.valid_for, 1_755_404_945_880),
        other => panic!("unexpected {:?}", other),
    }
    assert_eq!(flow.current_stage(), FlowStage::Finished);

    // Nothing is awaited any more.
    match flow.advance(&client, FlowEvent::Reply(reply(200, &body))) {
        FlowAction::Abort(ErrorHandler::InvalidRequest(message)) => {
            assert_eq!(message, "Unexpected event for this step of the validation")
        },
        other => panic!("unexpected {:?}", other),
    }
}

#[test]
fn validation_stops_at_the_first_error() {
    let client = client();
    let (mut flow, _) = ValidationFlow::begin(&client, "https://example.com", 1);
    let refused = envelope(Some(410), Some("Challenge has expired"), None);
    match flow.advance(&client, FlowEvent::Reply(reply(200, &refused))) {
        FlowAction::Abort(error) => {
            assert_eq!(processing_message(error), "Challenge has expired")
        },
        other => panic!("unexpected {:?}", other),
    }
    assert_eq!(flow.current_stage(), FlowStage::Finished);

    let (mut flow, _) = ValidationFlow::begin(&client, "https://example.com", 1);
    let outside = outside_challenge(1, SEED);
    let body = envelope(
        Some(200),
        Some("ok"),
        Some(("challenge", serde_json::to_value(&outside).unwrap())),
    );
    flow.advance(&client, FlowEvent::Reply(reply(200, &body)));
    match flow.advance(&client, FlowEvent::Solved(Err(ErrorHandler::NoSolution))) {
        FlowAction::Abort(ErrorHandler::NoSolution) => {},
        other => panic!("unexpected {:?}", other),
    }
    assert_eq!(flow.current_stage(), FlowStage::Finished);

    let (mut flow, _) = ValidationFlow::begin(&client, "https://example.com", 1);
    match flow.advance(&client, FlowEvent::Solved(Err(ErrorHandler::NoSolution))) {
        FlowAction::Abort(ErrorHandler::InvalidRequest(_)) => {},
        other => panic!("unexpected {:?}", other),
    }
    let (mut flow, _) = ValidationFlow::begin(&client, "https://example.com", 1);
    match flow.advance(&client, FlowEvent::Reply(HttpOutcome::Failed("timed out".to_string()))) {
        FlowAction::Abort(ErrorHandler::NetworkError(message)) => assert_eq!(message, "timed out"),
        other => panic!("unexpected {:?}", other),
    }
}

#[test]
fn failed_workers_leave_a_warning() {
    let failed = WorkerResult::Failed(ErrorHandler::challenge_solving_error("gone".to_string()));
    assert_eq!(
        ironshield::solve::failure_warning(&failed),
        Some("Challenge solving failed: gone".to_string())
    );
    assert_eq!(ironshield::solve::failure_warning(&WorkerResult::Cancelled), None);
    let solved = WorkerResult::Solved(IronShieldChallengeResponse::new(with_param([0xFF; 32]), 1));
    assert_eq!(ironshield::solve::failure_warning(&solved), None);
}
