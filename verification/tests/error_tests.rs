use ironshield::error::{
    ErrorHandler, ErrorInfo, ProtocolFault, MAX_TIME_DIFF_MS, STATUS_BAD_REQUEST, STATUS_FORBIDDEN,
    STATUS_GONE, STATUS_INTERNAL_SERVER_ERROR, STATUS_NOT_FOUND, STATUS_OK, STATUS_UNAUTHORIZED,
    STATUS_UNPROCESSABLE_ENTITY,
};

#[test]
fn every_error_has_its_line() {
    let m = || "why".to_string();
    let expected = vec![
        (ErrorHandler::api_error(503, m()), "API error (503): why"),
        (ErrorHandler::authentication_error(m()), "Authentication failed: why"),
        (ErrorHandler::challenge_error(m()), "Challenge processing error: why"),
        (ErrorHandler::challenge_solving_error(m()), "Challenge solving failed: why"),
        (ErrorHandler::challenge_verification_error(m()), "Challenge verification failed: why"),
        (ErrorHandler::config_error(m()), "Configuration error: why"),
        (ErrorHandler::InternalError, "Internal server error"),
        (ErrorHandler::InvalidRequest(m()), "Invalid request format: why"),
        (ErrorHandler::Io(m()), "IO error: why"),
        (ErrorHandler::from_network_error(m()), "Network request failed: why"),
        (ErrorHandler::NoSolution, "No solution found by any thread"),
        (ErrorHandler::not_found_error(m()), "Resource not found: why"),
        (ErrorHandler::permission_error(m()), "Permission denied: why"),
        (ErrorHandler::ProcessingError(m()), "Processing failed: why"),
        (ErrorHandler::rate_limit_error(m()), "Rate limit exceeded: why"),
        (ErrorHandler::SerializationError(m()), "Serialization error: why"),
        (ErrorHandler::timeout(30), "Operation timed out after 30s"),
    ];
    for (error, line) in expected {
        assert_eq!(error.to_text(), line);
    }
}

#[test]
fn constructors_build_their_variant() {
    assert!(matches!(ErrorHandler::api_error(404, "x".to_string()), ErrorHandler::Api { status: 404, .. }));
    assert!(matches!(ErrorHandler::authentication_error("x".to_string()), ErrorHandler::AuthenticationError(_)));
    assert!(matches!(ErrorHandler::challenge_error("x".to_string()), ErrorHandler::Challenge(_)));
    assert!(matches!(ErrorHandler::challenge_solving_error("x".to_string()), ErrorHandler::ChallengeSolvingError(_)));
    assert!(matches!(
        ErrorHandler::challenge_verification_error("x".to_string()),
        ErrorHandler::ChallengeVerificationError(_)
    ));
    assert!(matches!(ErrorHandler::config_error("x".to_string()), ErrorHandler::ConfigurationError(_)));
    assert!(matches!(ErrorHandler::from_network_error("x".to_string()), ErrorHandler::NetworkError(_)));
    assert!(matches!(ErrorHandler::not_found_error("x".to_string()), ErrorHandler::NotFoundError(_)));
    assert!(matches!(ErrorHandler::permission_error("x".to_string()), ErrorHandler::PermissionError(_)));
    assert!(matches!(ErrorHandler::rate_limit_error("x".to_string()), ErrorHandler::RateLimitError(_)));
    assert!(matches!(ErrorHandler::timeout(7), ErrorHandler::TimeoutError { seconds: 7 }));
}

#[test]
fn errors_map_to_response_statuses() {
    assert_eq!(
        ErrorHandler::InvalidRequest("bad".to_string()).response_parts(),
        (400, "bad".to_string())
    );
    assert_eq!(
        ErrorHandler::ProcessingError("wrong".to_string()).response_parts(),
        (422, "wrong".to_string())
    );
    assert_eq!(
        ErrorHandler::SerializationError("detail".to_string()).response_parts(),
        (500, "Data processing error".to_string())
    );
    assert_eq!(
        ErrorHandler::InternalError.response_parts(),
        (500, "Internal server error".to_string())
    );
    for other in [
        ErrorHandler::NoSolution,
        ErrorHandler::config_error("x".to_string()),
        ErrorHandler::from_network_error("x".to_string()),
        ErrorHandler::timeout(1),
        ErrorHandler::api_error(404, "x".to_string()),
    ] {
        assert_eq!(other.response_parts(), (500, "Unknown Error".to_string()));
    }
}

#[test]
fn protocol_faults_carry_message_and_status() {
    let expected = [
        (ProtocolFault::ClockSkew, "Request timestamp does not match the current time", 400u16),
        (ProtocolFault::InvalidEndpoint, "Endpoint must be a valid HTTPS URL", 422),
        (ProtocolFault::InvalidParams, "Invalid challenge parameters", 400),
        (ProtocolFault::InvalidSolution, "Invalid solution provided for the challenge", 422),
        (ProtocolFault::ChallengeExpired, "Challenge has expired", 410),
        (ProtocolFault::PubKeyFail, "Failed to load public key", 500),
        (ProtocolFault::SigKeyFail, "Failed to load signing key", 500),
        (ProtocolFault::SignatureFail, "Signature verification failed", 422),
    ];
    for (fault, message, status) in expected {
        let info: ErrorInfo = fault.info();
        assert_eq!(info.message(), message);
        assert_eq!(info.status_code(), status);
    }
}

#[test]
fn status_constants_have_their_codes() {
    assert_eq!(STATUS_OK, 200);
    assert_eq!(STATUS_BAD_REQUEST, 400);
    assert_eq!(STATUS_UNAUTHORIZED, 401);
    assert_eq!(STATUS_FORBIDDEN, 403);
    assert_eq!(STATUS_NOT_FOUND, 404);
    assert_eq!(STATUS_GONE, 410);
    assert_eq!(STATUS_UNPROCESSABLE_ENTITY, 422);
    assert_eq!(STATUS_INTERNAL_SERVER_ERROR, 500);
    assert_eq!(MAX_TIME_DIFF_MS, 30_000);
}
