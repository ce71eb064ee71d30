//! Client configuration and its constraints.

use vstd::prelude::*;
use vstd::string::StringExecFns;
use crate::error::{ErrorHandler, ErrorView};
use crate::text::{join2, starts_with};

verus! {

/// The `User-Agent` that the client sends unless told otherwise.
pub const USER_AGENT: &'static str = "ironshield-client";

/// The longest accepted request timeout, in seconds.
pub const MAX_TIMEOUT_SECS: u64 = 600;

/// Settings of one client. They do not change while the client lives.
#[derive(Debug)]
pub struct ClientConfig {
    /// Prefix of every request URL.
    pub api_base_url: String,
    /// Number of solver workers; `None` sizes the pool from the machine.
    pub num_threads: Option<usize>,
    /// Per-request timeout in whole seconds.
    pub timeout: u64,
    /// Value of the `User-Agent` header.
    pub user_agent: String,
    /// `true` selects the structured log, `false` the spinner.
    pub verbose: bool,
}

/// Mathematical value of a [`ClientConfig`].
pub struct ConfigView {
    pub api_base_url: Seq<char>,
    pub num_threads: Option<usize>,
    pub timeout: u64,
    pub user_agent: Seq<char>,
    pub verbose: bool,
}

impl View for ClientConfig {
    type V = ConfigView;

    open spec fn view(&self) -> ConfigView {
        ConfigView {
            api_base_url: self.api_base_url@,
            num_threads: self.num_threads,
            timeout: self.timeout,
            user_agent: self.user_agent@,
            verbose: self.verbose,
        }
    }
}

/// A constraint that a configuration can break.
#[derive(Debug, PartialEq, Eq, Structural, Clone, Copy)]
pub enum ConfigFault {
    /// The base URL is empty.
    EmptyUrl,
    /// The base URL does not begin with `https://`.
    InsecureUrl,
    /// The timeout is zero.
    ZeroTimeout,
    /// The timeout is longer than [`MAX_TIMEOUT_SECS`].
    LongTimeout,
    /// The thread count is set to zero.
    ZeroThreads,
    /// The user agent is empty.
    EmptyUserAgent,
}

impl ConfigFault {
    /// The message that reports this fault.
    pub open spec fn message(self) -> Seq<char> {
        match self {
            ConfigFault::EmptyUrl => "API base URL cannot be empty"@,
            ConfigFault::InsecureUrl => "Endpoint must be a valid HTTPS URL"@,
            ConfigFault::ZeroTimeout => "Timeout must be greater than zero"@,
            ConfigFault::LongTimeout => "Timeout must not exceed 600 seconds"@,
            ConfigFault::ZeroThreads => "Number of threads must be greater than zero"@,
            ConfigFault::EmptyUserAgent => "User agent cannot be empty"@,
        }
    }

    /// The error that reports this fault.
    pub fn to_error(self) -> (error: ErrorHandler)
        ensures
            error@ == ErrorView::ConfigurationError(self.message()),
    {
        let message: &'static str = match self {
            ConfigFault::EmptyUrl => "API base URL cannot be empty",
            ConfigFault::InsecureUrl => "Endpoint must be a valid HTTPS URL",
            ConfigFault::ZeroTimeout => "Timeout must be greater than zero",
            ConfigFault::LongTimeout => "Timeout must not exceed 600 seconds",
            ConfigFault::ZeroThreads => "Number of threads must be greater than zero",
            ConfigFault::EmptyUserAgent => "User agent cannot be empty",
        };
        ErrorHandler::config_error(String::from_str(message))
    }
}

/// The fault of a base URL, if it has one.
pub open spec fn url_fault(url: Seq<char>) -> Option<ConfigFault> {
    if url.len() == 0 {
        Some(ConfigFault::EmptyUrl)
    } else if !"https://"@.is_prefix_of(url) {
        Some(ConfigFault::InsecureUrl)
    } else {
        None
    }
}

/// Why the setter of the base URL refuses `url`, if it does: the URL is
/// empty, or it begins with neither `http://` nor `https://`.
pub open spec fn settable_url_fault(url: Seq<char>) -> Option<Seq<char>> {
    if url.len() == 0 {
        Some("API base URL cannot be empty"@)
    } else if !"http://"@.is_prefix_of(url) && !"https://"@.is_prefix_of(url) {
        Some("API base URL must start with http:// or https://"@)
    } else {
        None
    }
}

/// The fault of a timeout, if it has one.
pub open spec fn timeout_fault(seconds: u64) -> Option<ConfigFault> {
    if seconds == 0 {
        Some(ConfigFault::ZeroTimeout)
    } else if seconds > MAX_TIMEOUT_SECS {
        Some(ConfigFault::LongTimeout)
    } else {
        None
    }
}

/// The fault of a thread count, if it has one.
pub open spec fn threads_fault(threads: Option<usize>) -> Option<ConfigFault> {
    if threads == Some(0usize) {
        Some(ConfigFault::ZeroThreads)
    } else {
        None
    }
}

/// The fault of a user agent, if it has one.
pub open spec fn user_agent_fault(user_agent: Seq<char>) -> Option<ConfigFault> {
    if user_agent.len() == 0 {
        Some(ConfigFault::EmptyUserAgent)
    } else {
        None
    }
}

impl ConfigView {
    /// The first broken constraint, in the order base URL, timeout, thread
    /// count, user agent; `None` when all hold.
    pub open spec fn first_fault(self) -> Option<ConfigFault> {
        if url_fault(self.api_base_url) is Some {
            url_fault(self.api_base_url)
        } else if timeout_fault(self.timeout) is Some {
            timeout_fault(self.timeout)
        } else if threads_fault(self.num_threads) is Some {
            threads_fault(self.num_threads)
        } else {
            user_agent_fault(self.user_agent)
        }
    }

    /// All constraints hold: the base URL begins with `https://`, the
    /// timeout is between one second and [`MAX_TIMEOUT_SECS`], the thread
    /// count is not zero, and the user agent is not empty.
    pub open spec fn valid(self) -> bool {
        self.first_fault() is None
    }
}

/// Config validation: a configuration whose base URL lacks the `https://`
/// prefix is invalid, and so is one whose timeout is zero, and one whose
/// thread count is set to zero.
pub proof fn lemma_validation_rejects(config: ConfigView)
    ensures
        !"https://"@.is_prefix_of(config.api_base_url) ==> !config.valid(),
        config.timeout == 0 ==> !config.valid(),
        config.num_threads == Some(0usize) ==> !config.valid(),
{
}

/// Checks a base URL.
pub fn check_url(url: &str) -> (fault: Option<ConfigFault>)
    ensures
        fault == url_fault(url@),
{
    if url.is_empty() {
        Some(ConfigFault::EmptyUrl)
    } else if !starts_with(url, "https://") {
        Some(ConfigFault::InsecureUrl)
    } else {
        None
    }
}

/// Checks a timeout given in seconds.
pub fn check_timeout(seconds: u64) -> (fault: Option<ConfigFault>)
    ensures
        fault == timeout_fault(seconds),
{
    if seconds == 0 {
        Some(ConfigFault::ZeroTimeout)
    } else if seconds > MAX_TIMEOUT_SECS {
        Some(ConfigFault::LongTimeout)
    } else {
        None
    }
}

/// Checks a thread-count override.
pub fn check_threads(threads: Option<usize>) -> (fault: Option<ConfigFault>)
    ensures
        fault == threads_fault(threads),
{
    match threads {
        Some(0) => Some(ConfigFault::ZeroThreads),
        _ => None,
    }
}

/// Checks a user agent.
pub fn check_user_agent(user_agent: &str) -> (fault: Option<ConfigFault>)
    ensures
        fault == user_agent_fault(user_agent@),
{
    if user_agent.is_empty() {
        Some(ConfigFault::EmptyUserAgent)
    } else {
        None
    }
}

/// The production profile: the public API over HTTPS, a pool sized from
/// the machine, a timeout of thirty seconds, quiet output.
pub open spec fn default_config() -> ConfigView {
    ConfigView {
        api_base_url: "https://api.ironshield.cloud"@,
        num_threads: None,
        timeout: 30,
        user_agent: USER_AGENT@,
        verbose: false,
    }
}

impl Default for ClientConfig {
    /// The production profile.
    fn default() -> (config: Self)
        ensures
            config@ == default_config(),
    {
        ClientConfig {
            api_base_url: String::from_str("https://api.ironshield.cloud"),
            num_threads: None,
            timeout: 30,
            user_agent: String::from_str(USER_AGENT),
            verbose: false,
        }
    }
}

impl Clone for ClientConfig {
    fn clone(&self) -> (copy: Self)
        ensures
            copy@ == self@,
    {
        ClientConfig {
            api_base_url: self.api_base_url.clone(),
            num_threads: self.num_threads,
            timeout: self.timeout,
            user_agent: self.user_agent.clone(),
            verbose: self.verbose,
        }
    }
}

impl ClientConfig {
    /// The development profile: one worker, a long timeout, verbose output.
    pub fn development() -> (config: Self)
        ensures
            config@ == (ConfigView {
                api_base_url: "https://dev-api.ironshield.cloud"@,
                num_threads: Some(1usize),
                timeout: 60,
                user_agent: USER_AGENT@ + "-dev"@,
                verbose: true,
            }),
    {
        ClientConfig {
            api_base_url: String::from_str("https://dev-api.ironshield.cloud"),
            num_threads: Some(1),
            timeout: 60,
            user_agent: join2(USER_AGENT, "-dev"),
            verbose: true,
        }
    }

    /// The testing profile, for an API served at `localhost:3000`. Its
    /// plain-HTTP URL is accepted nowhere else: the profile does not pass
    /// [`validate`](Self::validate).
    pub fn testing() -> (config: Self)
        ensures
            config@ == (ConfigView {
                api_base_url: "http://localhost:3000"@,
                num_threads: Some(1usize),
                timeout: 5,
                user_agent: USER_AGENT@ + "-test"@,
                verbose: false,
            }),
    {
        ClientConfig {
            api_base_url: String::from_str("http://localhost:3000"),
            num_threads: Some(1),
            timeout: 5,
            user_agent: join2(USER_AGENT, "-test"),
            verbose: false,
        }
    }

    /// Checks every constraint and reports the first one that is broken.
    pub fn validate(&self) -> (result: Result<(), ErrorHandler>)
        ensures
            match result {
                Ok(_) => self@.valid(),
                Err(error) => self@.first_fault() matches Some(fault) && error@
                    == ErrorView::ConfigurationError(fault.message()),
            },
    {
        match self.fault() {
            None => Ok(()),
            Some(fault) => Err(fault.to_error()),
        }
    }

    /// The first broken constraint, if any.
    pub fn fault(&self) -> (fault: Option<ConfigFault>)
        ensures
            fault == self@.first_fault(),
    {
        let url: Option<ConfigFault> = check_url(self.api_base_url.as_str());
        if url.is_some() {
            return url;
        }
        let timeout: Option<ConfigFault> = check_timeout(self.timeout);
        if timeout.is_some() {
            return timeout;
        }
        let threads: Option<ConfigFault> = check_threads(self.num_threads);
        if threads.is_some() {
            return threads;
        }
        check_user_agent(self.user_agent.as_str())
    }

    /// Replaces the base URL. A URL for this setter may use plain HTTP, for
    /// a service on the local machine; [`validate`](Self::validate) still
    /// asks for HTTPS. On an error the configuration is unchanged.
    pub fn set_api_base_url(&mut self, url: &str) -> (result: Result<&mut Self, ErrorHandler>)
        ensures
            match result {
                Ok(config) => {
                    &&& settable_url_fault(url@) is None
                    &&& config@ == (ConfigView { api_base_url: url@, ..old(self)@ })
                    &&& *final(self) == *final(config)
                },
                Err(error) => {
                    &&& settable_url_fault(url@) matches Some(message)
                    &&& error@ == ErrorView::ConfigurationError(message)
                    &&& *final(self) == *old(self)
                },
            },
    {
        if url.is_empty() {
            return Err(
                ErrorHandler::config_error(String::from_str("API base URL cannot be empty")),
            );
        }
        if !starts_with(url, "http://") && !starts_with(url, "https://") {
            return Err(
                ErrorHandler::config_error(
                    String::from_str("API base URL must start with http:// or https://"),
                ),
            );
        }
        self.api_base_url = String::from_str(url);
        Ok(self)
    }

    /// Replaces the timeout, given in seconds. On an error the
    /// configuration is unchanged.
    pub fn set_timeout(&mut self, timeout: u64) -> (result: Result<&mut Self, ErrorHandler>)
        ensures
            match result {
                Ok(config) => {
                    &&& timeout_fault(timeout) is None
                    &&& config@ == (ConfigView { timeout, ..old(self)@ })
                    &&& *final(self) == *final(config)
                },
                Err(error) => {
                    &&& timeout_fault(timeout) matches Some(fault)
                    &&& error@ == ErrorView::ConfigurationError(fault.message())
                    &&& *final(self) == *old(self)
                },
            },
    {
        match check_timeout(timeout) {
            Some(fault) => Err(fault.to_error()),
            None => {
                self.timeout = timeout;
                Ok(self)
            },
        }
    }

    /// Replaces the thread-count override; `None` sizes the pool from the
    /// machine. On an error the configuration is unchanged.
    pub fn set_num_threads(&mut self, threads: Option<usize>) -> (result: Result<
        &mut Self,
        ErrorHandler,
    >)
        ensures
            match result {
                Ok(config) => {
                    &&& threads_fault(threads) is None
                    &&& config@ == (ConfigView { num_threads: threads, ..old(self)@ })
                    &&& *final(self) == *final(config)
                },
                Err(error) => {
                    &&& threads_fault(threads) matches Some(fault)
                    &&& error@ == ErrorView::ConfigurationError(fault.message())
                    &&& *final(self) == *old(self)
                },
            },
    {
        match check_threads(threads) {
            Some(fault) => Err(fault.to_error()),
            None => {
                self.num_threads = threads;
                Ok(self)
            },
        }
    }

    /// Replaces the user agent. On an error the configuration is unchanged.
    pub fn set_user_agent(&mut self, user_agent: &str) -> (result: Result<&mut Self, ErrorHandler>)
        ensures
            match result {
                Ok(config) => {
                    &&& user_agent_fault(user_agent@) is None
                    &&& config@ == (ConfigView { user_agent: user_agent@, ..old(self)@ })
                    &&& *final(self) == *final(config)
                },
                Err(error) => {
                    &&& user_agent_fault(user_agent@) matches Some(fault)
                    &&& error@ == ErrorView::ConfigurationError(fault.message())
                    &&& *final(self) == *old(self)
                },
            },
    {
        match check_user_agent(user_agent) {
            Some(fault) => Err(fault.to_error()),
            None => {
                self.user_agent = String::from_str(user_agent);
                Ok(self)
            },
        }
    }

    /// Turns verbose output on or off.
    pub fn set_verbose(&mut self, verbose: bool) -> (config: &mut Self)
        ensures
            *config == (ClientConfig { verbose, ..*old(self) }),
            *final(self) == *final(config),
    {
        self.verbose = verbose;
        self
    }
}

} // verus!
