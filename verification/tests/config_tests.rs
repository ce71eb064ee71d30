use ironshield::config::{
    check_threads, check_timeout, check_url, check_user_agent, ClientConfig, ConfigFault,
    MAX_TIMEOUT_SECS, USER_AGENT,
};
use ironshield::config_file::{
    is_known_key, ConfigKey, DecodeFault, FileRead, TomlEntry, TomlValue,
};
use ironshield::error::ErrorHandler;

fn config_message(error: ErrorHandler) -> String {
    match error {
        ErrorHandler::ConfigurationError(message) => message,
        other => panic!("expected a configuration error, got {:?}", other),
    }
}

fn full_file(url: &str) -> String {
    format!(
        "api_base_url = \"{}\"\ntimeout = 30\nuser_agent = \"agent/1.0\"\nverbose = false\n",
        url
    )
}

#[test]
fn test_default_config_is_valid() {
    let config = ClientConfig::default();
    assert!(config.validate().is_ok());
}

#[test]
fn test_config_validation_invalid_url() {
    let mut config = ClientConfig::default();
    config.api_base_url = "http://insecure.example.com".to_string();
    assert!(config.validate().is_err());
}

#[test]
fn test_config_validation_invalid_timeout() {
    let mut config = ClientConfig::default();
    config.timeout = 0;
    assert!(config.validate().is_err());
}

#[test]
fn test_config_validation_invalid_threads() {
    let mut config = ClientConfig::default();
    config.num_threads = Some(0);
    assert!(config.validate().is_err());
}

#[test]
fn profiles_hold_their_documented_values() {
    let default = ClientConfig::default();
    assert_eq!(default.api_base_url, "https://api.ironshield.cloud");
    assert_eq!(default.num_threads, None);
    assert_eq!(default.timeout, 30);
    assert_eq!(default.user_agent, USER_AGENT);
    assert!(!default.verbose);

    let dev = ClientConfig::development();
    assert_eq!(dev.api_base_url, "https://dev-api.ironshield.cloud");
    assert_eq!(dev.num_threads, Some(1));
    assert_eq!(dev.timeout, 60);
    assert_eq!(dev.user_agent, format!("{}-dev", USER_AGENT));
    assert!(dev.verbose);
    assert!(dev.validate().is_ok());

    let test = ClientConfig::testing();
    assert_eq!(test.api_base_url, "http://localhost:3000");
    assert_eq!(test.num_threads, Some(1));
    assert_eq!(test.timeout, 5);
    assert_eq!(test.user_agent, format!("{}-test", USER_AGENT));
    assert!(!test.verbose);
    // Plain HTTP is for the testing profile only: it does not validate.
    assert_eq!(test.fault(), Some(ConfigFault::InsecureUrl));
}

#[test]
fn validate_reports_the_first_broken_constraint() {
    let mut config = ClientConfig::default();
    config.api_base_url = String::new();
    config.timeout = 0;
    assert_eq!(config_message(config.validate().unwrap_err()), "API base URL cannot be empty");
    config.api_base_url = "ftp://example.com".to_string();
    assert_eq!(
        config_message(config.validate().unwrap_err()),
        "Endpoint must be a valid HTTPS URL"
    );
    config.api_base_url = "https://example.com".to_string();
    config.num_threads = Some(0);
    assert_eq!(
        config_message(config.validate().unwrap_err()),
        "Timeout must be greater than zero"
    );
    config.timeout = MAX_TIMEOUT_SECS + 1;
    assert_eq!(
        config_message(config.validate().unwrap_err()),
        "Timeout must not exceed 600 seconds"
    );
    config.timeout = MAX_TIMEOUT_SECS;
    config.user_agent = String::new();
    assert_eq!(
        config_message(config.validate().unwrap_err()),
        "Number of threads must be greater than zero"
    );
    config.num_threads = Some(1);
    assert_eq!(config_message(config.validate().unwrap_err()), "User agent cannot be empty");
    config.user_agent = "a".to_string();
    assert!(config.validate().is_ok());
    config.timeout = 1;
    assert!(config.validate().is_ok());
}

#[test]
fn single_checks_name_their_fault() {
    assert_eq!(check_url(""), Some(ConfigFault::EmptyUrl));
    assert_eq!(check_url("http://localhost:3000"), Some(ConfigFault::InsecureUrl));
    assert_eq!(check_url("HTTPS://EXAMPLE.COM"), Some(ConfigFault::InsecureUrl));
    assert_eq!(check_url("https://"), None);
    assert_eq!(check_timeout(0), Some(ConfigFault::ZeroTimeout));
    assert_eq!(check_timeout(1), None);
    assert_eq!(check_timeout(600), None);
    assert_eq!(check_timeout(601), Some(ConfigFault::LongTimeout));
    assert_eq!(check_threads(None), None);
    assert_eq!(check_threads(Some(0)), Some(ConfigFault::ZeroThreads));
    assert_eq!(check_threads(Some(usize::MAX)), None);
    assert_eq!(check_user_agent(""), Some(ConfigFault::EmptyUserAgent));
    assert_eq!(check_user_agent(" "), None);
}

#[test]
fn setters_change_one_field_or_nothing() {
    let mut config = ClientConfig::default();
    config
        .set_api_base_url("https://custom-api.example.com")
        .unwrap()
        .set_verbose(true)
        .set_timeout(45)
        .unwrap()
        .set_num_threads(Some(4))
        .unwrap()
        .set_user_agent("whateva/1.0")
        .unwrap();
    assert_eq!(config.api_base_url, "https://custom-api.example.com");
    assert_eq!(config.timeout, 45);
    assert_eq!(config.num_threads, Some(4));
    assert_eq!(config.user_agent, "whateva/1.0");
    assert!(config.verbose);

    assert_eq!(
        config_message(config.set_api_base_url("").unwrap_err()),
        "API base URL cannot be empty"
    );
    assert_eq!(
        config_message(config.set_api_base_url("example.com").unwrap_err()),
        "API base URL must start with http:// or https://"
    );
    assert_eq!(
        config_message(config.set_timeout(0).unwrap_err()),
        "Timeout must be greater than zero"
    );
    assert_eq!(
        config_message(config.set_timeout(601).unwrap_err()),
        "Timeout must not exceed 600 seconds"
    );
    assert_eq!(
        config_message(config.set_num_threads(Some(0)).unwrap_err()),
        "Number of threads must be greater than zero"
    );
    assert_eq!(
        config_message(config.set_user_agent("").unwrap_err()),
        "User agent cannot be empty"
    );
    assert_eq!(config.api_base_url, "https://custom-api.example.com");
    assert_eq!(config.timeout, 45);
    assert_eq!(config.num_threads, Some(4));
    assert_eq!(config.user_agent, "whateva/1.0");

    // The setter takes a plain-HTTP URL; validation still refuses it.
    config.set_api_base_url("http://localhost:3000").unwrap();
    assert_eq!(config.api_base_url, "http://localhost:3000");
    assert!(config.validate().is_err());
    config.set_num_threads(None).unwrap();
    assert_eq!(config.num_threads, None);
}

#[test]
fn saved_configuration_loads_back_unchanged() {
    let mut configs = vec![ClientConfig::default(), ClientConfig::development()];
    let mut custom = ClientConfig::default();
    custom.api_base_url = "https://example.com/a \"quoted\" path\\".to_string();
    custom.num_threads = Some(12);
    custom.timeout = 600;
    custom.user_agent = "agent — with dash".to_string();
    custom.verbose = true;
    configs.push(custom);
    for config in configs {
        let text = config.to_toml().unwrap();
        let loaded = ClientConfig::from_toml("ironshield.toml", &text).unwrap();
        assert_eq!(loaded.api_base_url, config.api_base_url);
        assert_eq!(loaded.num_threads, config.num_threads);
        assert_eq!(loaded.timeout, config.timeout);
        assert_eq!(loaded.user_agent, config.user_agent);
        assert_eq!(loaded.verbose, config.verbose);
    }
}

#[test]
fn default_configuration_is_written_key_by_key() {
    let text = ClientConfig::default().to_toml().unwrap();
    let expected = format!(
        "api_base_url = \"https://api.ironshield.cloud\"\ntimeout = 30\nuser_agent = \"{}\"\nverbose = false\n",
        USER_AGENT
    );
    assert_eq!(text, expected);
    let mut with_threads = ClientConfig::default();
    with_threads.num_threads = Some(8);
    assert!(with_threads.to_toml().unwrap().contains("num_threads = 8\n"));
}

#[test]
fn invalid_configuration_is_not_saved() {
    let mut config = ClientConfig::default();
    config.timeout = 0;
    assert_eq!(config_message(config.to_toml().unwrap_err()), "Timeout must be greater than zero");
    assert_eq!(
        config_message(ClientConfig::testing().to_toml().unwrap_err()),
        "Endpoint must be a valid HTTPS URL"
    );
}

#[test]
fn thread_count_beyond_toml_integers_is_not_saved() {
    let mut config = ClientConfig::default();
    config.num_threads = Some(usize::MAX);
    if (usize::MAX as u128) > (i64::MAX as u128) {
        assert!(config.to_entries().is_none());
        assert_eq!(
            config_message(config.to_toml().unwrap_err()),
            "Failed to serialize config to TOML: integer out of range"
        );
    } else {
        assert!(config.to_entries().is_some());
    }
}

#[test]
fn entries_follow_the_options() {
    let mut config = ClientConfig::default();
    config.num_threads = Some(3);
    let entries = config.to_entries().unwrap();
    let keys: Vec<&str> = entries.iter().map(|entry| entry.key.as_str()).collect();
    assert_eq!(keys, vec!["api_base_url", "num_threads", "timeout", "user_agent", "verbose"]);
    assert!(matches!(&entries[1].value, TomlValue::Integer(3)));
    assert!(matches!(&entries[2].value, TomlValue::Integer(30)));
    assert!(matches!(&entries[4].value, TomlValue::Boolean(false)));
    let back = ClientConfig::from_entries(&entries).unwrap();
    assert_eq!(back.num_threads, Some(3));
    assert_eq!(ClientConfig::default().to_entries().unwrap().len(), 4);
    assert_eq!(ConfigKey::Timeout.as_str(), "timeout");
    assert!(is_known_key("verbose"));
    assert!(!is_known_key("Verbose"));
}

#[test]
fn config_file_with_plain_http_url_is_refused() {
    let error = ClientConfig::from_toml("c.toml", "api_base_url = \"http://example.com\"").unwrap_err();
    let message = config_message(error);
    assert_eq!(
        message,
        "Configuration validation failed: Configuration error: Endpoint must be a valid HTTPS URL"
    );
    assert!(message.contains("HTTPS"));
    let error = ClientConfig::from_toml("c.toml", &full_file("http://example.com")).unwrap_err();
    assert!(config_message(error).contains("HTTPS"));
}

#[test]
fn config_file_faults_are_configuration_errors() {
    let load = |text: &str| config_message(ClientConfig::from_toml("my.toml", text).unwrap_err());
    assert_eq!(
        load("timeout = 30\nuser_agent = \"a\"\nverbose = true\n"),
        "Failed to parse TOML config file 'my.toml': missing field `api_base_url`"
    );
    assert_eq!(
        load("api_base_url = \"https://e.com\"\nuser_agent = \"a\"\nverbose = true\n"),
        "Failed to parse TOML config file 'my.toml': missing field `timeout`"
    );
    assert_eq!(
        load("api_base_url = \"https://e.com\"\ntimeout = 30\nverbose = true\n"),
        "Failed to parse TOML config file 'my.toml': missing field `user_agent`"
    );
    assert_eq!(
        load("api_base_url = \"https://e.com\"\ntimeout = 30\nuser_agent = \"a\"\n"),
        "Failed to parse TOML config file 'my.toml': missing field `verbose`"
    );
    assert_eq!(
        load(&format!("{}colour = \"red\"\n", full_file("https://e.com"))),
        "Failed to parse TOML config file 'my.toml': unknown field `colour`"
    );
    assert_eq!(
        load("api_base_url = 5\ntimeout = 30\nuser_agent = \"a\"\nverbose = true\n"),
        "Failed to parse TOML config file 'my.toml': invalid type for field `api_base_url`"
    );
    assert_eq!(
        load("api_base_url = \"https://e.com\"\ntimeout = \"30\"\nuser_agent = \"a\"\nverbose = true\n"),
        "Failed to parse TOML config file 'my.toml': invalid type for field `timeout`"
    );
    assert_eq!(
        load("api_base_url = \"https://e.com\"\ntimeout = 1.5\nuser_agent = \"a\"\nverbose = true\n"),
        "Failed to parse TOML config file 'my.toml': invalid type for field `timeout`"
    );
    assert_eq!(
        load("api_base_url = \"https://e.com\"\ntimeout = -1\nuser_agent = \"a\"\nverbose = true\n"),
        "Failed to parse TOML config file 'my.toml': integer out of range for field `timeout`"
    );
    assert_eq!(
        load("api_base_url = \"https://e.com\"\nnum_threads = -4\ntimeout = 3\nuser_agent = \"a\"\nverbose = true\n"),
        "Failed to parse TOML config file 'my.toml': integer out of range for field `num_threads`"
    );
    assert_eq!(
        load("api_base_url = \"https://e.com\"\nnum_threads = 0\ntimeout = 3\nuser_agent = \"a\"\nverbose = true\n"),
        "Configuration validation failed: Configuration error: Number of threads must be greater than zero"
    );
    assert_eq!(
        load("api_base_url = \"https://e.com\"\ntimeout = 0\nuser_agent = \"a\"\nverbose = true\n"),
        "Configuration validation failed: Configuration error: Timeout must be greater than zero"
    );
    assert_eq!(
        load("api_base_url = \"https://e.com\"\ntimeout = 601\nuser_agent = \"a\"\nverbose = true\n"),
        "Configuration validation failed: Configuration error: Timeout must not exceed 600 seconds"
    );
    assert_eq!(
        load("api_base_url = \"https://e.com\"\ntimeout = 30\nuser_agent = \"\"\nverbose = true\n"),
        "Configuration validation failed: Configuration error: User agent cannot be empty"
    );
    assert_eq!(
        load("api_base_url = \"https://e.com\"\ntimeout = 30\nuser_agent = \"a\"\nverbose = \"yes\"\n"),
        "Failed to parse TOML config file 'my.toml': invalid type for field `verbose`"
    );
    let broken = load("api_base_url = ");
    assert!(broken.starts_with("Failed to parse TOML config file 'my.toml': "));
    assert!(broken.len() > "Failed to parse TOML config file 'my.toml': ".len());
}

#[test]
fn decode_faults_have_their_lines() {
    assert_eq!(DecodeFault::UnknownKey("x".to_string()).to_text(), "unknown field `x`");
    assert_eq!(DecodeFault::MissingKey(ConfigKey::Verbose).to_text(), "missing field `verbose`");
    assert_eq!(
        DecodeFault::WrongType(ConfigKey::UserAgent).to_text(),
        "invalid type for field `user_agent`"
    );
    assert_eq!(
        DecodeFault::OutOfRange(ConfigKey::NumThreads).to_text(),
        "integer out of range for field `num_threads`"
    );
    assert_eq!(
        DecodeFault::Invalid(ConfigFault::ZeroTimeout).to_text(),
        "Timeout must be greater than zero"
    );
    let entries = vec![TomlEntry { key: "timeout".to_string(), value: TomlValue::Unsupported }];
    assert!(matches!(
        ClientConfig::from_entries(&entries),
        Err(DecodeFault::MissingKey(ConfigKey::ApiBaseUrl))
    ));
}

#[test]
fn config_file_absent_gives_defaults_and_one_notice() {
    let outcome = ClientConfig::from_file_read("/no/such/path", FileRead::NotFound);
    assert_eq!(
        outcome.notice,
        Some("Config file '/no/such/path' not found, using default configuration.".to_string())
    );
    let config = outcome.result.unwrap();
    assert_eq!(config.api_base_url, ClientConfig::default().api_base_url);
    assert_eq!(config.timeout, 30);
    assert_eq!(config.num_threads, None);
    assert!(config.validate().is_ok());
}

#[test]
fn config_file_read_outcomes() {
    let outcome = ClientConfig::from_file_read(
        "c.toml",
        FileRead::Failed("Permission denied (os error 13)".to_string()),
    );
    assert!(outcome.notice.is_none());
    match outcome.result.unwrap_err() {
        ErrorHandler::Io(message) => assert_eq!(message, "Permission denied (os error 13)"),
        other => panic!("expected an IO error, got {:?}", other),
    }
    let outcome =
        ClientConfig::from_file_read("c.toml", FileRead::Content(full_file("https://e.com")));
    assert!(outcome.notice.is_none());
    let config = outcome.result.unwrap();
    assert_eq!(config.api_base_url, "https://e.com");
    assert_eq!(config.user_agent, "agent/1.0");
    let outcome = ClientConfig::from_file_read("c.toml", FileRead::Content("x = 1".to_string()));
    assert!(outcome.notice.is_none());
    assert!(outcome.result.is_err());
}

#[test]
fn config_file_with_two_faults_reports_them_as_validation_does() {
    let text = "api_base_url = \"https://e.com\"\nnum_threads = 0\ntimeout = 0\nuser_agent = \"a\"\nverbose = true\n";
    let loaded = config_message(ClientConfig::from_toml("my.toml", text).unwrap_err());
    assert_eq!(
        loaded,
        "Configuration validation failed: Configuration error: Timeout must be greater than zero"
    );
    let mut config = ClientConfig::default();
    config.api_base_url = "https://e.com".to_string();
    config.num_threads = Some(0);
    config.timeout = 0;
    config.user_agent = "a".to_string();
    assert_eq!(
        loaded,
        format!(
            "Configuration validation failed: Configuration error: {}",
            config_message(config.validate().unwrap_err())
        )
    );
    let text = "api_base_url = \"https://e.com\"\nnum_threads = \"4\"\nuser_agent = \"a\"\nverbose = true\n";
    assert_eq!(
        config_message(ClientConfig::from_toml("my.toml", text).unwrap_err()),
        "Failed to parse TOML config file 'my.toml': missing field `timeout`"
    );
}
