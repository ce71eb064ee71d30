//! The persisted form of a configuration: a TOML document with one key per
//! option.
//!
//! The `toml` crate turns text into a flat list of entries and back. What
//! the entries mean is decided here: which keys exist, which are required,
//! what type and range each value has.

use vstd::prelude::*;
use vstd::string::StringExecFns;
use crate::config::{check_threads, check_timeout, check_url, check_user_agent, default_config,
    threads_fault,
    timeout_fault, url_fault, user_agent_fault, ClientConfig, ConfigFault, ConfigView};
use crate::error::{error_text, ErrorHandler, ErrorView};
use crate::text::{join2, join3, same_text};

verus! {

/// A value of a TOML document, as far as a configuration can hold it.
#[derive(Debug)]
pub enum TomlValue {
    /// A string.
    Text(String),
    /// An integer.
    Integer(i64),
    /// A boolean.
    Boolean(bool),
    /// A float, a date, an array or a table: nothing a configuration holds.
    Unsupported,
}

/// Mathematical value of a [`TomlValue`].
pub enum TomlValueView {
    Text(Seq<char>),
    Integer(i64),
    Boolean(bool),
    Unsupported,
}

impl View for TomlValue {
    type V = TomlValueView;

    open spec fn view(&self) -> TomlValueView {
        match self {
            TomlValue::Text(text) => TomlValueView::Text(text@),
            TomlValue::Integer(number) => TomlValueView::Integer(*number),
            TomlValue::Boolean(flag) => TomlValueView::Boolean(*flag),
            TomlValue::Unsupported => TomlValueView::Unsupported,
        }
    }
}

/// One `key = value` line of a document.
#[derive(Debug)]
pub struct TomlEntry {
    pub key: String,
    pub value: TomlValue,
}

/// Mathematical value of a [`TomlEntry`].
pub struct TomlEntryView {
    pub key: Seq<char>,
    pub value: TomlValueView,
}

impl View for TomlEntry {
    type V = TomlEntryView;

    open spec fn view(&self) -> TomlEntryView {
        TomlEntryView { key: self.key@, value: self.value@ }
    }
}

/// The mathematical values of a list of entries.
pub open spec fn entries_view(entries: Seq<TomlEntry>) -> Seq<TomlEntryView> {
    entries.map_values(|entry: TomlEntry| entry@)
}

/// The top-level entries of the TOML document `text` as `toml::from_str`
/// reads them into a `toml::Table`, in the table's order, or the message of
/// its error.
pub uninterp spec fn toml_parse(text: Seq<char>) -> Result<Seq<TomlEntryView>, Seq<char>>;

/// The text that `toml::to_string_pretty` gives for the table made of
/// `entries`, or the message of its error.
pub uninterp spec fn toml_render(entries: Seq<TomlEntryView>) -> Result<Seq<char>, Seq<char>>;

/// Calls `toml::from_str` for a `toml::Table` and hands out the table's
/// top-level entries one for one; a value that is no string, integer or
/// boolean comes out as `Unsupported`. An error comes out as its message.
/// The contract names the result and claims nothing more of it.
#[verifier::external_body]
fn parse_document(text: &str) -> (parsed: Result<Vec<TomlEntry>, String>)
    ensures
        match parsed {
            Ok(entries) => toml_parse(text@) == Ok::<Seq<TomlEntryView>, Seq<char>>(
                entries_view(entries@),
            ),
            Err(message) => toml_parse(text@) == Err::<Seq<TomlEntryView>, Seq<char>>(message@),
        },
{
    match toml::from_str::<toml::Table>(text) {
        Ok(table) => Ok(table.into_iter().map(|(key, value)| TomlEntry { key, value: match value {
            toml::Value::String(text) => TomlValue::Text(text),
            toml::Value::Integer(number) => TomlValue::Integer(number),
            toml::Value::Boolean(flag) => TomlValue::Boolean(flag),
            toml::Value::Float(_) => TomlValue::Unsupported,
            toml::Value::Datetime(_) => TomlValue::Unsupported,
            toml::Value::Array(_) => TomlValue::Unsupported,
            toml::Value::Table(_) => TomlValue::Unsupported,
        } }).collect()),
        Err(error) => Err(error.to_string()),
    }
}

/// Collects `entries` into a `toml::Table` and calls
/// `toml::to_string_pretty` on it. An error comes out as its message. The
/// contract names the result and claims nothing more of it.
#[verifier::external_body]
fn render_document(entries: &Vec<TomlEntry>) -> (rendered: Result<String, String>)
    requires
        forall|i: int| 0 <= i < entries.len() ==> !(entries[i].value is Unsupported),
    ensures
        match rendered {
            Ok(text) => toml_render(entries_view(entries@)) == Ok::<Seq<char>, Seq<char>>(text@),
            Err(message) => toml_render(entries_view(entries@)) == Err::<Seq<char>, Seq<char>>(
                message@,
            ),
        },
{
    let table: toml::Table = entries.iter().map(|entry| (entry.key.clone(), match &entry.value {
        TomlValue::Text(text) => toml::Value::String(text.clone()),
        TomlValue::Integer(number) => toml::Value::Integer(*number),
        TomlValue::Boolean(flag) => toml::Value::Boolean(*flag),
        TomlValue::Unsupported => toml::Value::Array(Vec::new()),
    })).collect();
    toml::to_string_pretty(&table).map_err(|error| error.to_string())
}

/// The options that a document can set.
#[derive(Debug, PartialEq, Eq, Structural, Clone, Copy)]
pub enum ConfigKey {
    ApiBaseUrl,
    NumThreads,
    Timeout,
    UserAgent,
    Verbose,
}

impl ConfigKey {
    /// The key under which the option is stored.
    pub open spec fn name(self) -> Seq<char> {
        match self {
            ConfigKey::ApiBaseUrl => "api_base_url"@,
            ConfigKey::NumThreads => "num_threads"@,
            ConfigKey::Timeout => "timeout"@,
            ConfigKey::UserAgent => "user_agent"@,
            ConfigKey::Verbose => "verbose"@,
        }
    }

    /// The key under which the option is stored.
    pub fn as_str(self) -> (name: &'static str)
        ensures
            name@ == self.name(),
    {
        match self {
            ConfigKey::ApiBaseUrl => "api_base_url",
            ConfigKey::NumThreads => "num_threads",
            ConfigKey::Timeout => "timeout",
            ConfigKey::UserAgent => "user_agent",
            ConfigKey::Verbose => "verbose",
        }
    }
}

/// Whether `key` names an option.
pub open spec fn known_key(key: Seq<char>) -> bool {
    ||| key == ConfigKey::ApiBaseUrl.name()
    ||| key == ConfigKey::NumThreads.name()
    ||| key == ConfigKey::Timeout.name()
    ||| key == ConfigKey::UserAgent.name()
    ||| key == ConfigKey::Verbose.name()
}

/// The first key of `entries` that names no option.
pub open spec fn first_unknown(entries: Seq<TomlEntryView>) -> Option<Seq<char>>
    decreases entries.len(),
{
    if entries.len() == 0 {
        None
    } else if !known_key(entries[0].key) {
        Some(entries[0].key)
    } else {
        first_unknown(entries.drop_first())
    }
}

/// The value of the first entry of `entries` stored under `key`.
pub open spec fn lookup(entries: Seq<TomlEntryView>, key: Seq<char>) -> Option<TomlValueView>
    decreases entries.len(),
{
    if entries.len() == 0 {
        None
    } else if entries[0].key == key {
        Some(entries[0].value)
    } else {
        lookup(entries.drop_first(), key)
    }
}

/// Why a document is no configuration.
#[derive(Debug)]
pub enum DecodeFault {
    /// The document has a key that names no option.
    UnknownKey(String),
    /// A required option is absent.
    MissingKey(ConfigKey),
    /// An option's value has the wrong type.
    WrongType(ConfigKey),
    /// An integer option is negative or too large for its type.
    OutOfRange(ConfigKey),
    /// An option's value breaks a constraint.
    Invalid(ConfigFault),
}

/// Mathematical value of a [`DecodeFault`].
pub enum DecodeFaultView {
    UnknownKey(Seq<char>),
    MissingKey(ConfigKey),
    WrongType(ConfigKey),
    OutOfRange(ConfigKey),
    Invalid(ConfigFault),
}

impl View for DecodeFault {
    type V = DecodeFaultView;

    open spec fn view(&self) -> DecodeFaultView {
        match self {
            DecodeFault::UnknownKey(key) => DecodeFaultView::UnknownKey(key@),
            DecodeFault::MissingKey(key) => DecodeFaultView::MissingKey(*key),
            DecodeFault::WrongType(key) => DecodeFaultView::WrongType(*key),
            DecodeFault::OutOfRange(key) => DecodeFaultView::OutOfRange(*key),
            DecodeFault::Invalid(fault) => DecodeFaultView::Invalid(*fault),
        }
    }
}

/// The base URL that `entries` set.
pub open spec fn decode_url(entries: Seq<TomlEntryView>) -> Result<Seq<char>, DecodeFaultView> {
    match lookup(entries, ConfigKey::ApiBaseUrl.name()) {
        None => Err(DecodeFaultView::MissingKey(ConfigKey::ApiBaseUrl)),
        Some(TomlValueView::Text(url)) => match url_fault(url) {
            Some(fault) => Err(DecodeFaultView::Invalid(fault)),
            None => Ok(url),
        },
        Some(_) => Err(DecodeFaultView::WrongType(ConfigKey::ApiBaseUrl)),
    }
}

/// The thread-count override that `entries` set; the key may be absent.
pub open spec fn decode_threads(entries: Seq<TomlEntryView>) -> Result<
    Option<usize>,
    DecodeFaultView,
> {
    match lookup(entries, ConfigKey::NumThreads.name()) {
        None => Ok(None),
        Some(TomlValueView::Integer(number)) => if number < 0 || number > usize::MAX {
            Err(DecodeFaultView::OutOfRange(ConfigKey::NumThreads))
        } else {
            match threads_fault(Some(number as usize)) {
                Some(fault) => Err(DecodeFaultView::Invalid(fault)),
                None => Ok(Some(number as usize)),
            }
        },
        Some(_) => Err(DecodeFaultView::WrongType(ConfigKey::NumThreads)),
    }
}

/// The timeout that `entries` set, in seconds.
pub open spec fn decode_timeout(entries: Seq<TomlEntryView>) -> Result<u64, DecodeFaultView> {
    match lookup(entries, ConfigKey::Timeout.name()) {
        None => Err(DecodeFaultView::MissingKey(ConfigKey::Timeout)),
        Some(TomlValueView::Integer(number)) => if number < 0 {
            Err(DecodeFaultView::OutOfRange(ConfigKey::Timeout))
        } else {
            match timeout_fault(number as u64) {
                Some(fault) => Err(DecodeFaultView::Invalid(fault)),
                None => Ok(number as u64),
            }
        },
        Some(_) => Err(DecodeFaultView::WrongType(ConfigKey::Timeout)),
    }
}

/// The user agent that `entries` set.
pub open spec fn decode_user_agent(entries: Seq<TomlEntryView>) -> Result<
    Seq<char>,
    DecodeFaultView,
> {
    match lookup(entries, ConfigKey::UserAgent.name()) {
        None => Err(DecodeFaultView::MissingKey(ConfigKey::UserAgent)),
        Some(TomlValueView::Text(agent)) => match user_agent_fault(agent) {
            Some(fault) => Err(DecodeFaultView::Invalid(fault)),
            None => Ok(agent),
        },
        Some(_) => Err(DecodeFaultView::WrongType(ConfigKey::UserAgent)),
    }
}

/// The verbosity that `entries` set.
pub open spec fn decode_verbose(entries: Seq<TomlEntryView>) -> Result<bool, DecodeFaultView> {
    match lookup(entries, ConfigKey::Verbose.name()) {
        None => Err(DecodeFaultView::MissingKey(ConfigKey::Verbose)),
        Some(TomlValueView::Boolean(flag)) => Ok(flag),
        Some(_) => Err(DecodeFaultView::WrongType(ConfigKey::Verbose)),
    }
}

/// The configuration that `entries` describe, or the first reason why they
/// describe none. An unknown key is reported first. Then the options are
/// read in the order in which a configuration is validated: base URL,
/// timeout, thread count, user agent, and last the verbosity. For each
/// option a missing key comes before a wrong type, a wrong type before a
/// value out of range, and that before a broken constraint. Only the
/// thread count may be absent.
pub open spec fn decode_entries(entries: Seq<TomlEntryView>) -> Result<ConfigView, DecodeFaultView> {
    if first_unknown(entries) is Some {
        Err(DecodeFaultView::UnknownKey(first_unknown(entries)->0))
    } else if decode_url(entries) is Err {
        Err(decode_url(entries)->Err_0)
    } else if decode_timeout(entries) is Err {
        Err(decode_timeout(entries)->Err_0)
    } else if decode_threads(entries) is Err {
        Err(decode_threads(entries)->Err_0)
    } else if decode_user_agent(entries) is Err {
        Err(decode_user_agent(entries)->Err_0)
    } else if decode_verbose(entries) is Err {
        Err(decode_verbose(entries)->Err_0)
    } else {
        Ok(
            ConfigView {
                api_base_url: decode_url(entries)->Ok_0,
                num_threads: decode_threads(entries)->Ok_0,
                timeout: decode_timeout(entries)->Ok_0,
                user_agent: decode_user_agent(entries)->Ok_0,
                verbose: decode_verbose(entries)->Ok_0,
            },
        )
    }
}

/// Whether `key` names an option.
pub fn is_known_key(key: &str) -> (known: bool)
    ensures
        known == known_key(key@),
{
    same_text(key, ConfigKey::ApiBaseUrl.as_str()) || same_text(key, ConfigKey::NumThreads.as_str())
        || same_text(key, ConfigKey::Timeout.as_str()) || same_text(
        key,
        ConfigKey::UserAgent.as_str(),
    ) || same_text(key, ConfigKey::Verbose.as_str())
}

/// The index of the first entry with an unknown key.
fn find_unknown(entries: &Vec<TomlEntry>) -> (found: Option<usize>)
    ensures
        match found {
            Some(i) => i < entries.len() && first_unknown(entries_view(entries@)) == Some(
                entries[i as int].key@,
            ),
            None => first_unknown(entries_view(entries@)) is None,
        },
{
    let ghost all: Seq<TomlEntryView> = entries_view(entries@);
    let mut i: usize = 0;
    assert(all.skip(0) =~= all);
    while i < entries.len()
        invariant
            i <= entries.len(),
            all == entries_view(entries@),
            first_unknown(all) == first_unknown(all.skip(i as int)),
        decreases entries.len() - i,
    {
        assert(all.skip(i as int)[0] == entries[i as int]@);
        assert(all.skip(i as int).drop_first() =~= all.skip(i + 1));
        if !is_known_key(entries[i].key.as_str()) {
            return Some(i);
        }
        i += 1;
    }
    None
}

/// The index of the first entry stored under `key`.
fn find_key(entries: &Vec<TomlEntry>, key: &str) -> (found: Option<usize>)
    ensures
        match found {
            Some(i) => i < entries.len() && lookup(entries_view(entries@), key@) == Some(
                entries[i as int].value@,
            ),
            None => lookup(entries_view(entries@), key@) is None,
        },
{
    let ghost all: Seq<TomlEntryView> = entries_view(entries@);
    let mut i: usize = 0;
    assert(all.skip(0) =~= all);
    while i < entries.len()
        invariant
            i <= entries.len(),
            all == entries_view(entries@),
            lookup(all, key@) == lookup(all.skip(i as int), key@),
        decreases entries.len() - i,
    {
        assert(all.skip(i as int)[0] == entries[i as int]@);
        assert(all.skip(i as int).drop_first() =~= all.skip(i + 1));
        if same_text(entries[i].key.as_str(), key) {
            return Some(i);
        }
        i += 1;
    }
    None
}

fn read_url(entries: &Vec<TomlEntry>) -> (result: Result<String, DecodeFault>)
    ensures
        match result {
            Ok(url) => decode_url(entries_view(entries@)) == Ok::<Seq<char>, DecodeFaultView>(
                url@,
            ),
            Err(fault) => decode_url(entries_view(entries@)) == Err::<Seq<char>, DecodeFaultView>(
                fault@,
            ),
        },
{
    match find_key(entries, ConfigKey::ApiBaseUrl.as_str()) {
        None => Err(DecodeFault::MissingKey(ConfigKey::ApiBaseUrl)),
        Some(i) => match &entries[i].value {
            TomlValue::Text(url) => match check_url(url.as_str()) {
                Some(fault) => Err(DecodeFault::Invalid(fault)),
                None => Ok(url.clone()),
            },
            _ => Err(DecodeFault::WrongType(ConfigKey::ApiBaseUrl)),
        },
    }
}

fn read_threads(entries: &Vec<TomlEntry>) -> (result: Result<Option<usize>, DecodeFault>)
    ensures
        match result {
            Ok(threads) => decode_threads(entries_view(entries@)) == Ok::<
                Option<usize>,
                DecodeFaultView,
            >(threads),
            Err(fault) => decode_threads(entries_view(entries@)) == Err::<
                Option<usize>,
                DecodeFaultView,
            >(fault@),
        },
{
    match find_key(entries, ConfigKey::NumThreads.as_str()) {
        None => Ok(None),
        Some(i) => match &entries[i].value {
            TomlValue::Integer(number) => {
                let number: i64 = *number;
                if number < 0 || number as u64 > usize::MAX as u64 {
                    Err(DecodeFault::OutOfRange(ConfigKey::NumThreads))
                } else {
                    let threads: Option<usize> = Some(number as usize);
                    match check_threads(threads) {
                        Some(fault) => Err(DecodeFault::Invalid(fault)),
                        None => Ok(threads),
                    }
                }
            },
            _ => Err(DecodeFault::WrongType(ConfigKey::NumThreads)),
        },
    }
}

fn read_timeout(entries: &Vec<TomlEntry>) -> (result: Result<u64, DecodeFault>)
    ensures
        match result {
            Ok(timeout) => decode_timeout(entries_view(entries@)) == Ok::<u64, DecodeFaultView>(
                timeout,
            ),
            Err(fault) => decode_timeout(entries_view(entries@)) == Err::<u64, DecodeFaultView>(
                fault@,
            ),
        },
{
    match find_key(entries, ConfigKey::Timeout.as_str()) {
        None => Err(DecodeFault::MissingKey(ConfigKey::Timeout)),
        Some(i) => match &entries[i].value {
            TomlValue::Integer(number) => {
                let number: i64 = *number;
                if number < 0 {
                    Err(DecodeFault::OutOfRange(ConfigKey::Timeout))
                } else {
                    match check_timeout(number as u64) {
                        Some(fault) => Err(DecodeFault::Invalid(fault)),
                        None => Ok(number as u64),
                    }
                }
            },
            _ => Err(DecodeFault::WrongType(ConfigKey::Timeout)),
        },
    }
}

fn read_user_agent(entries: &Vec<TomlEntry>) -> (result: Result<String, DecodeFault>)
    ensures
        match result {
            Ok(agent) => decode_user_agent(entries_view(entries@)) == Ok::<
                Seq<char>,
                DecodeFaultView,
            >(agent@),
            Err(fault) => decode_user_agent(entries_view(entries@)) == Err::<
                Seq<char>,
                DecodeFaultView,
            >(fault@),
        },
{
    match find_key(entries, ConfigKey::UserAgent.as_str()) {
        None => Err(DecodeFault::MissingKey(ConfigKey::UserAgent)),
        Some(i) => match &entries[i].value {
            TomlValue::Text(agent) => match check_user_agent(agent.as_str()) {
                Some(fault) => Err(DecodeFault::Invalid(fault)),
                None => Ok(agent.clone()),
            },
            _ => Err(DecodeFault::WrongType(ConfigKey::UserAgent)),
        },
    }
}

fn read_verbose(entries: &Vec<TomlEntry>) -> (result: Result<bool, DecodeFault>)
    ensures
        match result {
            Ok(flag) => decode_verbose(entries_view(entries@)) == Ok::<bool, DecodeFaultView>(flag),
            Err(fault) => decode_verbose(entries_view(entries@)) == Err::<bool, DecodeFaultView>(
                fault@,
            ),
        },
{
    match find_key(entries, ConfigKey::Verbose.as_str()) {
        None => Err(DecodeFault::MissingKey(ConfigKey::Verbose)),
        Some(i) => match &entries[i].value {
            TomlValue::Boolean(flag) => Ok(*flag),
            _ => Err(DecodeFault::WrongType(ConfigKey::Verbose)),
        },
    }
}

impl ClientConfig {
    /// Reads a configuration from the entries of a document, as
    /// [`decode_entries`] says. A configuration that comes out of this
    /// function is valid.
    pub fn from_entries(entries: &Vec<TomlEntry>) -> (result: Result<ClientConfig, DecodeFault>)
        ensures
            match result {
                Ok(config) => decode_entries(entries_view(entries@)) == Ok::<
                    ConfigView,
                    DecodeFaultView,
                >(config@) && config@.valid(),
                Err(fault) => decode_entries(entries_view(entries@)) == Err::<
                    ConfigView,
                    DecodeFaultView,
                >(fault@),
            },
    {
        match find_unknown(entries) {
            Some(i) => {
                return Err(DecodeFault::UnknownKey(entries[i].key.clone()));
            },
            None => {},
        }
        let api_base_url: String = match read_url(entries) {
            Ok(url) => url,
            Err(fault) => {
                return Err(fault);
            },
        };
        let timeout: u64 = match read_timeout(entries) {
            Ok(timeout) => timeout,
            Err(fault) => {
                return Err(fault);
            },
        };
        let num_threads: Option<usize> = match read_threads(entries) {
            Ok(threads) => threads,
            Err(fault) => {
                return Err(fault);
            },
        };
        let user_agent: String = match read_user_agent(entries) {
            Ok(agent) => agent,
            Err(fault) => {
                return Err(fault);
            },
        };
        let verbose: bool = match read_verbose(entries) {
            Ok(flag) => flag,
            Err(fault) => {
                return Err(fault);
            },
        };
        Ok(ClientConfig { api_base_url, num_threads, timeout, user_agent, verbose })
    }
}

/// The line that reports `fault`.
pub open spec fn decode_fault_text(fault: DecodeFaultView) -> Seq<char> {
    match fault {
        DecodeFaultView::UnknownKey(key) => "unknown field `"@ + key + "`"@,
        DecodeFaultView::MissingKey(key) => "missing field `"@ + key.name() + "`"@,
        DecodeFaultView::WrongType(key) => "invalid type for field `"@ + key.name() + "`"@,
        DecodeFaultView::OutOfRange(key) => "integer out of range for field `"@ + key.name()
            + "`"@,
        DecodeFaultView::Invalid(fault) => fault.message(),
    }
}

/// The message for a document at `path` that could not be read as a
/// configuration, for the reason in `detail`.
pub open spec fn parse_failure_text(path: Seq<char>, detail: Seq<char>) -> Seq<char> {
    "Failed to parse TOML config file '"@ + path + "': "@ + detail
}

/// The message for a document whose values break the constraint `fault`.
pub open spec fn validation_failure_text(fault: ConfigFault) -> Seq<char> {
    "Configuration validation failed: "@ + error_text(
        ErrorView::ConfigurationError(fault.message()),
    )
}

/// The error for a document at `path` that is no configuration because of
/// `fault`.
pub open spec fn decode_error(path: Seq<char>, fault: DecodeFaultView) -> ErrorView {
    match fault {
        DecodeFaultView::Invalid(broken) => ErrorView::ConfigurationError(
            validation_failure_text(broken),
        ),
        _ => ErrorView::ConfigurationError(parse_failure_text(path, decode_fault_text(fault))),
    }
}

/// What loading the document at `path` gives, where `parsed` is what the
/// TOML parser made of its text.
pub open spec fn load_result(
    path: Seq<char>,
    parsed: Result<Seq<TomlEntryView>, Seq<char>>,
) -> Result<ConfigView, ErrorView> {
    match parsed {
        Err(detail) => Err(ErrorView::ConfigurationError(parse_failure_text(path, detail))),
        Ok(entries) => match decode_entries(entries) {
            Ok(config) => Ok(config),
            Err(fault) => Err(decode_error(path, fault)),
        },
    }
}

/// Whether the numbers of `config` fit the integers of a TOML document.
pub open spec fn encodable(config: ConfigView) -> bool {
    &&& config.timeout <= i64::MAX
    &&& config.num_threads matches Some(threads) ==> threads <= i64::MAX
}

/// The entry that stores `value` under the key of `key`.
pub open spec fn entry_of(key: ConfigKey, value: TomlValueView) -> TomlEntryView {
    TomlEntryView { key: key.name(), value }
}

/// The entries that store `config`: one per option in the order base URL,
/// thread count, timeout, user agent, verbosity. An unset thread count has
/// no entry.
pub open spec fn encode_entries(config: ConfigView) -> Seq<TomlEntryView> {
    let threads = match config.num_threads {
        Some(threads) => seq![
            entry_of(ConfigKey::NumThreads, TomlValueView::Integer(threads as i64)),
        ],
        None => Seq::empty(),
    };
    seq![entry_of(ConfigKey::ApiBaseUrl, TomlValueView::Text(config.api_base_url))] + threads
        + seq![
        entry_of(ConfigKey::Timeout, TomlValueView::Integer(config.timeout as i64)),
        entry_of(ConfigKey::UserAgent, TomlValueView::Text(config.user_agent)),
        entry_of(ConfigKey::Verbose, TomlValueView::Boolean(config.verbose)),
    ]
}

/// What saving `config` gives, where `rendered` is what the TOML printer
/// made of its entries: the first broken constraint, or a number that does
/// not fit, or the printer's error, or the text.
pub open spec fn save_result(config: ConfigView, rendered: Result<Seq<char>, Seq<char>>) -> Result<
    Seq<char>,
    ErrorView,
> {
    if config.first_fault() is Some {
        Err(ErrorView::ConfigurationError(config.first_fault()->0.message()))
    } else if !encodable(config) {
        Err(
            ErrorView::ConfigurationError(
                "Failed to serialize config to TOML: integer out of range"@,
            ),
        )
    } else {
        match rendered {
            Ok(text) => Ok(text),
            Err(detail) => Err(
                ErrorView::ConfigurationError("Failed to serialize config to TOML: "@ + detail),
            ),
        }
    }
}

/// The keys of the options differ from one another.
proof fn lemma_keys_distinct()
    ensures
        forall|a: ConfigKey, b: ConfigKey| a != b ==> #[trigger] a.name() != #[trigger] b.name(),
        forall|a: ConfigKey| known_key(#[trigger] a.name()),
{
    reveal_strlit("api_base_url");
    reveal_strlit("num_threads");
    reveal_strlit("timeout");
    reveal_strlit("user_agent");
    reveal_strlit("verbose");
    assert("api_base_url"@.len() == 12);
    assert("num_threads"@.len() == 11);
    assert("timeout"@.len() == 7);
    assert("user_agent"@.len() == 10);
    assert("verbose"@.len() == 7);
    assert("timeout"@[0] == 't');
    assert("verbose"@[0] == 'v');
    assert forall|a: ConfigKey, b: ConfigKey| a != b implies #[trigger] a.name() != #[trigger] b.name() by {
        if a.name() == b.name() {
            assert(a.name().len() == b.name().len());
            assert(a.name()[0] == b.name()[0]);
        }
    }
}

/// Config round trip: the entries written for a valid configuration read
/// back as that configuration.
pub proof fn lemma_config_round_trip(config: ConfigView)
    requires
        config.valid(),
        encodable(config),
    ensures
        decode_entries(encode_entries(config)) == Ok::<ConfigView, DecodeFaultView>(config),
{
    lemma_keys_distinct();
    let entries = encode_entries(config);
    reveal_with_fuel(lookup, 6);
    reveal_with_fuel(first_unknown, 6);
    match config.num_threads {
        Some(threads) => {
            assert(entries.len() == 5);
            assert(entries.drop_first() =~= seq![entries[1], entries[2], entries[3], entries[4]]);
            assert(entries.drop_first().drop_first() =~= seq![entries[2], entries[3], entries[4]]);
            assert(entries.drop_first().drop_first().drop_first() =~= seq![
                entries[3],
                entries[4],
            ]);
            assert(entries.drop_first().drop_first().drop_first().drop_first() =~= seq![
                entries[4],
            ]);
            assert(entries.drop_first().drop_first().drop_first().drop_first().drop_first()
                =~= Seq::<TomlEntryView>::empty());
        },
        None => {
            assert(entries.len() == 4);
            assert(entries.drop_first() =~= seq![entries[1], entries[2], entries[3]]);
            assert(entries.drop_first().drop_first() =~= seq![entries[2], entries[3]]);
            assert(entries.drop_first().drop_first().drop_first() =~= seq![entries[3]]);
            assert(entries.drop_first().drop_first().drop_first().drop_first() =~= Seq::<
                TomlEntryView,
            >::empty());
        },
    }
}

/// Whether the TOML crate reads back the entries that it wrote.
pub open spec fn reads_back(entries: Seq<TomlEntryView>) -> bool {
    toml_render(entries) matches Ok(text) ==> toml_parse(text) == Ok::<
        Seq<TomlEntryView>,
        Seq<char>,
    >(entries)
}

/// Round trip through text: where the TOML crate reads back what it wrote,
/// loading the text saved for a configuration gives that configuration.
pub proof fn lemma_file_round_trip(config: ConfigView, path: Seq<char>, text: Seq<char>)
    requires
        reads_back(encode_entries(config)),
        save_result(config, toml_render(encode_entries(config))) == Ok::<Seq<char>, ErrorView>(
            text,
        ),
    ensures
        load_result(path, toml_parse(text)) == Ok::<ConfigView, ErrorView>(config),
{
    lemma_config_round_trip(config);
}

/// What reading a configuration file gave.
#[derive(Debug)]
pub enum FileRead {
    /// The file's text.
    Content(String),
    /// There is no such file.
    NotFound,
    /// Reading failed for another reason, given as the system's message.
    Failed(String),
}

/// A loaded configuration, or the error, and the notice to print on
/// standard error, if any.
#[derive(Debug)]
pub struct LoadOutcome {
    pub result: Result<ClientConfig, ErrorHandler>,
    pub notice: Option<String>,
}

/// The notice for a missing file at `path`.
pub open spec fn missing_file_notice(path: Seq<char>) -> Seq<char> {
    "Config file '"@ + path + "' not found, using default configuration."@
}

impl DecodeFault {
    /// The line that reports this fault.
    pub fn to_text(&self) -> (text: String)
        ensures
            text@ == decode_fault_text(self@),
    {
        match self {
            DecodeFault::UnknownKey(key) => join3("unknown field `", key.as_str(), "`"),
            DecodeFault::MissingKey(key) => join3("missing field `", key.as_str(), "`"),
            DecodeFault::WrongType(key) => join3("invalid type for field `", key.as_str(), "`"),
            DecodeFault::OutOfRange(key) => join3(
                "integer out of range for field `",
                key.as_str(),
                "`",
            ),
            DecodeFault::Invalid(fault) => {
                let error: ErrorHandler = fault.to_error();
                match error {
                    ErrorHandler::ConfigurationError(message) => message,
                    _ => String::new(),
                }
            },
        }
    }

    /// The error for a document at `path` with this fault.
    pub fn to_error(&self, path: &str) -> (error: ErrorHandler)
        ensures
            error@ == decode_error(path@, self@),
    {
        match self {
            DecodeFault::Invalid(fault) => {
                let inner: String = fault.to_error().to_text();
                ErrorHandler::config_error(
                    join2("Configuration validation failed: ", inner.as_str()),
                )
            },
            _ => {
                let detail: String = self.to_text();
                parse_failure(path, detail.as_str())
            },
        }
    }
}

/// The error for a document at `path` that could not be read, for the
/// reason in `detail`.
fn parse_failure(path: &str, detail: &str) -> (error: ErrorHandler)
    ensures
        error@ == ErrorView::ConfigurationError(parse_failure_text(path@, detail@)),
{
    let mut message: String = join3("Failed to parse TOML config file '", path, "': ");
    message.append(detail);
    ErrorHandler::config_error(message)
}

impl ClientConfig {
    /// The entries that store this configuration, or `None` when one of
    /// its numbers does not fit the integers of a TOML document.
    pub fn to_entries(&self) -> (entries: Option<Vec<TomlEntry>>)
        ensures
            match entries {
                Some(list) => {
                    &&& encodable(self@)
                    &&& entries_view(list@) == encode_entries(self@)
                    &&& forall|i: int| 0 <= i < list.len() ==> !(list[i].value is Unsupported)
                },
                None => !encodable(self@),
            },
    {
        if self.timeout > i64::MAX as u64 {
            return None;
        }
        let mut list: Vec<TomlEntry> = Vec::new();
        list.push(
            TomlEntry {
                key: String::from_str(ConfigKey::ApiBaseUrl.as_str()),
                value: TomlValue::Text(self.api_base_url.clone()),
            },
        );
        match self.num_threads {
            Some(threads) => {
                if threads as u64 > i64::MAX as u64 {
                    return None;
                }
                list.push(
                    TomlEntry {
                        key: String::from_str(ConfigKey::NumThreads.as_str()),
                        value: TomlValue::Integer(threads as i64),
                    },
                );
            },
            None => {},
        }
        list.push(
            TomlEntry {
                key: String::from_str(ConfigKey::Timeout.as_str()),
                value: TomlValue::Integer(self.timeout as i64),
            },
        );
        list.push(
            TomlEntry {
                key: String::from_str(ConfigKey::UserAgent.as_str()),
                value: TomlValue::Text(self.user_agent.clone()),
            },
        );
        list.push(
            TomlEntry {
                key: String::from_str(ConfigKey::Verbose.as_str()),
                value: TomlValue::Boolean(self.verbose),
            },
        );
        assert(entries_view(list@) =~= encode_entries(self@));
        Some(list)
    }

    /// Reads a configuration from the TOML text `content` of the file at
    /// `path`. The result is what [`load_result`] makes of the parser's
    /// reading of `content`.
    pub fn from_toml(path: &str, content: &str) -> (result: Result<ClientConfig, ErrorHandler>)
        ensures
            match result {
                Ok(config) => load_result(path@, toml_parse(content@)) == Ok::<
                    ConfigView,
                    ErrorView,
                >(config@) && config@.valid(),
                Err(error) => load_result(path@, toml_parse(content@)) == Err::<
                    ConfigView,
                    ErrorView,
                >(error@),
            },
    {
        match parse_document(content) {
            Err(detail) => Err(parse_failure(path, detail.as_str())),
            Ok(entries) => match ClientConfig::from_entries(&entries) {
                Ok(config) => Ok(config),
                Err(fault) => Err(fault.to_error(path)),
            },
        }
    }

    /// The TOML text that stores this configuration. An invalid
    /// configuration is not written: the call fails with its first broken
    /// constraint. The result is what [`save_result`] makes of the
    /// printer's rendering of the entries.
    pub fn to_toml(&self) -> (result: Result<String, ErrorHandler>)
        ensures
            match result {
                Ok(text) => save_result(self@, toml_render(encode_entries(self@))) == Ok::<
                    Seq<char>,
                    ErrorView,
                >(text@),
                Err(error) => save_result(self@, toml_render(encode_entries(self@))) == Err::<
                    Seq<char>,
                    ErrorView,
                >(error@),
            },
    {
        match self.validate() {
            Err(error) => {
                return Err(error);
            },
            Ok(_) => {},
        }
        match self.to_entries() {
            None => Err(
                ErrorHandler::config_error(
                    String::from_str("Failed to serialize config to TOML: integer out of range"),
                ),
            ),
            Some(entries) => match render_document(&entries) {
                Ok(text) => Ok(text),
                Err(detail) => Err(
                    ErrorHandler::config_error(
                        join2("Failed to serialize config to TOML: ", detail.as_str()),
                    ),
                ),
            },
        }
    }

    /// Decides what loading the file at `path` gives, from what reading it
    /// gave. A missing file gives the default configuration and a notice;
    /// any other failure to read is an error; text is read as TOML.
    pub fn from_file_read(path: &str, read: FileRead) -> (outcome: LoadOutcome)
        ensures
            match read {
                FileRead::Content(content) => {
                    &&& outcome.notice is None
                    &&& match outcome.result {
                        Ok(config) => load_result(path@, toml_parse(content@)) == Ok::<
                            ConfigView,
                            ErrorView,
                        >(config@),
                        Err(error) => load_result(path@, toml_parse(content@)) == Err::<
                            ConfigView,
                            ErrorView,
                        >(error@),
                    }
                },
                FileRead::NotFound => {
                    &&& outcome.notice matches Some(notice)
                    &&& notice@ == missing_file_notice(path@)
                    &&& outcome.result matches Ok(config)
                    &&& config@ == default_config()
                },
                FileRead::Failed(message) => {
                    &&& outcome.notice is None
                    &&& outcome.result matches Err(error)
                    &&& error@ == ErrorView::Io(message@)
                },
            },
    {
        match read {
            FileRead::Content(content) => LoadOutcome {
                result: ClientConfig::from_toml(path, content.as_str()),
                notice: None,
            },
            FileRead::NotFound => LoadOutcome {
                result: Ok(ClientConfig::default()),
                notice: Some(
                    join3("Config file '", path, "' not found, using default configuration."),
                ),
            },
            FileRead::Failed(message) => LoadOutcome {
                result: Err(ErrorHandler::Io(message)),
                notice: None,
            },
        }
    }
}

} // verus!
