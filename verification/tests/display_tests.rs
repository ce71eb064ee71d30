use ironshield::config::{ClientConfig, USER_AGENT};
use ironshield::display::{
    format_number_with_commas, verbose_kv, verbose_log, verbose_section, LogLabel,
    ProgressAnimation, SpinnerState, CLEAR_LINE,
};
use ironshield::text::{decimal_text, join2, join3, same_text, starts_with};

#[test]
fn test_format_number_with_commas() {
    assert_eq!(format_number_with_commas(0), "0");
    assert_eq!(format_number_with_commas(42), "42");
    assert_eq!(format_number_with_commas(123), "123");
    assert_eq!(format_number_with_commas(1000), "1,000");
    assert_eq!(format_number_with_commas(12345), "12,345");
    assert_eq!(format_number_with_commas(1234567), "1,234,567");
    assert_eq!(format_number_with_commas(1234567890), "1,234,567,890");
}

#[test]
fn format_number_keeps_zeros_inside_groups() {
    assert_eq!(format_number_with_commas(999), "999");
    assert_eq!(format_number_with_commas(1_000_000), "1,000,000");
    assert_eq!(format_number_with_commas(1_002_003), "1,002,003");
    assert_eq!(format_number_with_commas(10_000), "10,000");
    assert_eq!(format_number_with_commas(u64::MAX), "18,446,744,073,709,551,615");
}

#[test]
fn test_progress_animation_verbose_mode() {
    let animation = ProgressAnimation::new(true);
    let handle = animation.start();
    assert!(handle.is_none(), "Animation should not start in verbose mode");
}

#[test]
fn test_progress_animation_non_verbose_mode() {
    let animation = ProgressAnimation::new(false);
    let handle = animation.start();
    assert!(handle.is_some(), "Animation should start in non-verbose mode");
    assert!(animation.is_running());

    // Clean up the animation
    let erase = animation.stop(handle.is_some());
    assert_eq!(erase, Some("\r\x1b[K"));
    assert!(!animation.is_running());
}

#[test]
fn stopping_a_verbose_animation_prints_nothing() {
    let animation = ProgressAnimation::new(true);
    assert!(!animation.is_running());
    assert_eq!(animation.stop(false), None);
    assert_eq!(animation.stop(true), None);
    let quiet = ProgressAnimation::new(false);
    assert_eq!(quiet.stop(false), None);
}

#[test]
fn spinner_cycles_through_four_frames() {
    let mut state = SpinnerState { frame: 0 };
    let mut lines = Vec::new();
    for _ in 0..5 {
        lines.push(state.line());
        state.advance();
    }
    assert_eq!(lines[0], "\r\x1b[KSolving Challenge |");
    assert_eq!(lines[1], "\r\x1b[KSolving Challenge /");
    assert_eq!(lines[2], "\r\x1b[KSolving Challenge —");
    assert_eq!(lines[3], "\r\x1b[KSolving Challenge \\");
    assert_eq!(lines[4], lines[0]);
    assert_eq!(state.frame, 1);
    assert_eq!(CLEAR_LINE, "\r\x1b[K");
    let mut far = SpinnerState { frame: usize::MAX };
    far.advance();
    assert_eq!(far.frame, (usize::MAX % 4 + 1) % 4);
}

#[test]
fn test_verbose_macros() {
    let verbose_config = ClientConfig {
        api_base_url: "https://api.test.com".to_string(),
        num_threads: None,
        timeout: 30,
        user_agent: USER_AGENT.to_string(),
        verbose: true,
    };

    let quiet_config = ClientConfig {
        api_base_url: "https://api.test.com".to_string(),
        num_threads: None,
        timeout: 30,
        user_agent: USER_AGENT.to_string(),
        verbose: false,
    };

    // These should print when verbose is true.
    assert_eq!(
        verbose_log(&verbose_config, LogLabel::Info, "Test info message"),
        Some("INFO: Test info message".to_string())
    );
    assert_eq!(
        verbose_section(&verbose_config, "Test Section"),
        Some(format!("\n🔸  Test Section\n{}", "─".repeat(40)))
    );
    assert_eq!(verbose_kv(&verbose_config, "Key", "Value"), Some("Key: Value".to_string()));

    // These should not print when verbose is false.
    assert_eq!(verbose_log(&quiet_config, LogLabel::Info, "This should not print"), None);
    assert_eq!(verbose_section(&quiet_config, "This should not print"), None);
    assert_eq!(verbose_kv(&quiet_config, "Key", "This should not print"), None);
}

#[test]
fn every_log_label_has_its_prefix() {
    let config = ClientConfig::development();
    let expected = [
        (LogLabel::Compute, "COMPUTE: x"),
        (LogLabel::Error, "ERROR: x"),
        (LogLabel::Info, "INFO: x"),
        (LogLabel::Receive, "RECEIVE: x"),
        (LogLabel::Success, "SUCCESS: x"),
        (LogLabel::Submit, "SUBMIT: x"),
        (LogLabel::Network, "NETWORK: x"),
        (LogLabel::Timing, "TIMING: x"),
        (LogLabel::Warning, "WARNING: x"),
    ];
    for (label, line) in expected {
        assert_eq!(verbose_log(&config, label, "x"), Some(line.to_string()));
    }
}

#[test]
fn text_helpers_compare_and_join() {
    assert!(starts_with("https://example.com", "https://"));
    assert!(starts_with("https://", "https://"));
    assert!(starts_with("anything", ""));
    assert!(!starts_with("http://example.com", "https://"));
    assert!(!starts_with("https:/", "https://"));
    assert!(!starts_with("", "h"));
    assert!(starts_with("—dash", "—"));
    assert!(same_text("timeout", "timeout"));
    assert!(!same_text("timeout", "verbose"));
    assert!(!same_text("timeout", "timeouts"));
    assert!(same_text("", ""));
    assert_eq!(join2("ab", "cd"), "abcd");
    assert_eq!(join3("a", "", "c"), "ac");
    assert_eq!(decimal_text(0), "0");
    assert_eq!(decimal_text(9), "9");
    assert_eq!(decimal_text(10), "10");
    assert_eq!(decimal_text(4_070), "4070");
    assert_eq!(decimal_text(u64::MAX), "18446744073709551615");
}
