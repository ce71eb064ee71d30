//! What the client shows while it works: grouped numbers, the spinner, and
//! the lines of the verbose log.
//!
//! Nothing here writes to the terminal. The functions produce the text; the
//! program around the library prints it and flushes.

use vstd::prelude::*;
use vstd::string::StringExecFns;
use std::sync::atomic::AtomicBool;
use crate::config::ClientConfig;
use crate::text::{decimal_digits, decimal_text, digit_char, digit_text, join2, join3};

verus! {

/// `digits` with a comma before every group of three digits, counted from
/// the right.
pub open spec fn with_commas(digits: Seq<char>) -> Seq<char>
    decreases digits.len(),
{
    if digits.len() <= 3 {
        digits
    } else {
        with_commas(digits.subrange(0, digits.len() - 3)) + seq![','] + digits.subrange(
            digits.len() - 3,
            digits.len() as int,
        )
    }
}

/// The three digits of `r`, with leading zeros.
pub open spec fn three_digits(r: nat) -> Seq<char> {
    seq![digit_char(r / 100), digit_char((r / 10) % 10), digit_char(r % 10)]
}

/// The numeral of a number of at least a thousand is the numeral of its
/// thousands followed by the three digits of the rest.
proof fn lemma_decimal_thousands(n: nat)
    requires
        n >= 1000,
    ensures
        decimal_digits(n) == decimal_digits(n / 1000) + three_digits(n % 1000),
{
    let r: nat = n % 1000;
    assert(n / 10 / 10 == n / 100);
    assert(n / 100 / 10 == n / 1000);
    assert(r / 100 == (n / 100) % 10);
    assert((r / 10) % 10 == (n / 10) % 10);
    assert(r % 10 == n % 10);
    assert(decimal_digits(n) == decimal_digits(n / 10).push(digit_char(n % 10)));
    assert(decimal_digits(n / 10) == decimal_digits(n / 100).push(digit_char((n / 10) % 10)));
    assert(decimal_digits(n / 100) == decimal_digits(n / 1000).push(digit_char((n / 100) % 10)));
    assert(decimal_digits(n) =~= decimal_digits(n / 1000) + three_digits(r));
}

/// The text of the three digits of `r`.
fn three_digit_text(r: u64) -> (text: String)
    requires
        r < 1000,
    ensures
        text@ == three_digits(r as nat),
{
    let text: String = join3(digit_text(r / 100), digit_text((r / 10) % 10), digit_text(r % 10));
    assert(text@ =~= three_digits(r as nat));
    text
}

/// Formats `num` in decimal with a comma between groups of three digits:
/// `1234567` becomes `1,234,567`.
pub fn format_number_with_commas(num: u64) -> (text: String)
    ensures
        text@ == with_commas(decimal_digits(num as nat)),
    decreases num,
{
    if num < 1000 {
        let text: String = decimal_text(num);
        proof {
            lemma_short_numeral(num as nat);
        }
        text
    } else {
        let mut text: String = format_number_with_commas(num / 1000);
        let tail: String = three_digit_text(num % 1000);
        text.append(",");
        text.append(tail.as_str());
        proof {
            reveal_strlit(",");
            lemma_decimal_thousands(num as nat);
            let digits = decimal_digits(num as nat);
            let head = decimal_digits((num / 1000) as nat);
            assert(digits.subrange(0, digits.len() - 3) =~= head);
            assert(digits.subrange(digits.len() - 3, digits.len() as int) =~= three_digits(
                (num % 1000) as nat,
            ));
            assert(","@ =~= seq![',']);
        }
        text
    }
}

/// A number below a thousand has at most three digits.
proof fn lemma_short_numeral(n: nat)
    requires
        n < 1000,
    ensures
        decimal_digits(n).len() <= 3,
{
    reveal_with_fuel(decimal_digits, 4);
}

/// The label in front of a line of the verbose log.
#[derive(Debug, PartialEq, Eq, Structural, Clone, Copy)]
pub enum LogLabel {
    Compute,
    Error,
    Info,
    Receive,
    Success,
    Submit,
    Network,
    Timing,
    Warning,
}

impl LogLabel {
    /// The label's text, with the colon and the space that follow it.
    pub open spec fn prefix(self) -> Seq<char> {
        match self {
            LogLabel::Compute => "COMPUTE: "@,
            LogLabel::Error => "ERROR: "@,
            LogLabel::Info => "INFO: "@,
            LogLabel::Receive => "RECEIVE: "@,
            LogLabel::Success => "SUCCESS: "@,
            LogLabel::Submit => "SUBMIT: "@,
            LogLabel::Network => "NETWORK: "@,
            LogLabel::Timing => "TIMING: "@,
            LogLabel::Warning => "WARNING: "@,
        }
    }

    /// The label's text, with the colon and the space that follow it.
    pub fn as_prefix(self) -> (prefix: &'static str)
        ensures
            prefix@ == self.prefix(),
    {
        match self {
            LogLabel::Compute => "COMPUTE: ",
            LogLabel::Error => "ERROR: ",
            LogLabel::Info => "INFO: ",
            LogLabel::Receive => "RECEIVE: ",
            LogLabel::Success => "SUCCESS: ",
            LogLabel::Submit => "SUBMIT: ",
            LogLabel::Network => "NETWORK: ",
            LogLabel::Timing => "TIMING: ",
            LogLabel::Warning => "WARNING: ",
        }
    }
}

/// The labelled line for `message`, if `config` asks for verbose output.
pub fn verbose_log(config: &ClientConfig, label: LogLabel, message: &str) -> (line: Option<String>)
    ensures
        match line {
            Some(text) => config.verbose && text@ == label.prefix() + message@,
            None => !config.verbose,
        },
{
    if config.verbose {
        Some(join2(label.as_prefix(), message))
    } else {
        None
    }
}

/// The line `key: value`, if `config` asks for verbose output.
pub fn verbose_kv(config: &ClientConfig, key: &str, value: &str) -> (line: Option<String>)
    ensures
        match line {
            Some(text) => config.verbose && text@ == key@ + ": "@ + value@,
            None => !config.verbose,
        },
{
    if config.verbose {
        Some(join3(key, ": ", value))
    } else {
        None
    }
}

/// Width of the rule under a section header.
pub const SECTION_RULE_WIDTH: usize = 40;

/// A rule of `width` box-drawing dashes.
pub open spec fn rule_of(width: nat) -> Seq<char>
    decreases width,
{
    if width == 0 {
        Seq::empty()
    } else {
        rule_of((width - 1) as nat) + "─"@
    }
}

/// The header of the section `title`: an empty line, the marked title, and
/// a rule under it, if `config` asks for verbose output.
pub fn verbose_section(config: &ClientConfig, title: &str) -> (lines: Option<String>)
    ensures
        match lines {
            Some(text) => config.verbose && text@ == "\n🔸  "@ + title@ + "\n"@ + rule_of(
                SECTION_RULE_WIDTH as nat,
            ),
            None => !config.verbose,
        },
{
    if !config.verbose {
        return None;
    }
    let mut text: String = join3("\n🔸  ", title, "\n");
    let ghost head: Seq<char> = text@;
    let mut drawn: usize = 0;
    while drawn < SECTION_RULE_WIDTH
        invariant
            drawn <= SECTION_RULE_WIDTH,
            text@ == head + rule_of(drawn as nat),
        decreases SECTION_RULE_WIDTH - drawn,
    {
        text.append("─");
        drawn += 1;
        assert(text@ =~= head + rule_of(drawn as nat));
    }
    Some(text)
}

/// What erases the spinner's line: a carriage return and the control
/// sequence that clears to the end of the line.
pub const CLEAR_LINE: &'static str = "\r\x1b[K";

/// Milliseconds between two frames of the spinner.
pub const SPINNER_INTERVAL_MS: u64 = 250;

/// The spinner's frame at position `index` of its cycle `| / — \`.
pub open spec fn frame_of(index: nat) -> Seq<char> {
    if index % 4 == 0 {
        "|"@
    } else if index % 4 == 1 {
        "/"@
    } else if index % 4 == 2 {
        "—"@
    } else {
        "\\"@
    }
}

/// The position of the spinner in its cycle of four frames.
#[derive(Debug, PartialEq, Eq, Structural, Clone, Copy)]
pub struct SpinnerState {
    pub frame: usize,
}

impl SpinnerState {
    /// The text that draws the current frame over the spinner's line.
    pub fn line(&self) -> (text: String)
        ensures
            text@ == CLEAR_LINE@ + "Solving Challenge "@ + frame_of(self.frame as nat),
    {
        let frame: &'static str = if self.frame % 4 == 0 {
            "|"
        } else if self.frame % 4 == 1 {
            "/"
        } else if self.frame % 4 == 2 {
            "—"
        } else {
            "\\"
        };
        join3(CLEAR_LINE, "Solving Challenge ", frame)
    }

    /// Moves to the next frame of the cycle.
    pub fn advance(&mut self)
        ensures
            final(self).frame == (old(self).frame + 1) % 4,
    {
        self.frame = (self.frame % 4 + 1) % 4;
    }
}

/// A spinner shown during long operations. It is drawn only when verbose
/// output is off, so that it never overwrites the log.
pub struct ProgressAnimation {
    running: AtomicBool,
    verbose: bool,
}

impl ProgressAnimation {
    /// Whether verbose output is on.
    pub closed spec fn is_verbose(&self) -> bool {
        self.verbose
    }

    /// A stopped animation.
    pub fn new(verbose: bool) -> (animation: Self)
        ensures
            animation.is_verbose() == verbose,
    {
        ProgressAnimation { running: AtomicBool::new(false), verbose }
    }

    /// Starts the animation unless verbose output is on. The returned state
    /// is the first frame; whoever draws the spinner advances it at every
    /// tick for as long as [`is_running`](Self::is_running) holds.
    pub fn start(&self) -> (first: Option<SpinnerState>)
        ensures
            first == if self.is_verbose() {
                None
            } else {
                Some(SpinnerState { frame: 0 })
            },
    {
        if self.verbose {
            return None;
        }
        self.running.store(true, std::sync::atomic::Ordering::Relaxed);
        Some(SpinnerState { frame: 0 })
    }

    /// Whether the animation has been started and not stopped since.
    pub fn is_running(&self) -> bool {
        self.running.load(std::sync::atomic::Ordering::Relaxed)
    }

    /// Stops the animation and tells what to print once the drawing has
    /// ended: the sequence that erases the line, if a spinner was started
    /// (`started`) and verbose output is off.
    pub fn stop(&self, started: bool) -> (erase: Option<&'static str>)
        ensures
            match erase {
                Some(text) => started && !self.is_verbose() && text@ == CLEAR_LINE@,
                None => !started || self.is_verbose(),
            },
    {
        self.running.store(false, std::sync::atomic::Ordering::Relaxed);
        if started && !self.verbose {
            Some(CLEAR_LINE)
        } else {
            None
        }
    }
}

} // verus!
