//! The configuration surface: which settings must be present, and what the
//! optional ones default to.

use vstd::prelude::*;
use vstd::string::{StrSliceExecFns, StringExecFns};

verus! {

/// The batch size that applies when none is configured.
pub const DEFAULT_BATCH_SIZE: usize = 50;

/// The idle timeout, in seconds, that applies when none is configured.
pub const DEFAULT_IDLE_TIMEOUT_SECS: u64 = 10;

/// The capacity of the hand-off queue between consumer and accumulator.
pub const HANDOFF_QUEUE_CAPACITY: usize = 1000;

/// Why the process cannot start with the configuration it found.
#[derive(Clone, Copy, Debug, PartialEq, Eq, Structural)]
pub enum ConfigError {
    /// The configuration file could not be loaded.
    FileUnreadable,
    /// A required setting is not defined.
    MissingKey,
    /// The listen port is not a number between 1 and 65535.
    InvalidPort,
    /// The batch size is zero.
    InvalidBatchSize,
}

/// The settings without which the consumer does not start, in the order in
/// which they are checked.
pub open spec fn required_keys() -> Seq<Seq<char>> {
    seq![
        "RABBIT_HOST"@,
        "RABBIT_PORT"@,
        "RABBIT_USER"@,
        "RABBIT_PASSWORD"@,
        "RABBIT_QUEUE"@,
        "RABBIT_EXCHANGE"@,
        "CONSUMER_NAME"@,
        "SUPPORTED_CONTENT_TYPE"@,
        "DATABASE_URL"@,
        "QUEUE_SIZE"@,
        "QUEUE_TIMEOUT_SECS"@,
    ]
}

/// The required settings that `defined` lacks, in checking order.
pub open spec fn missing_from(defined: Seq<Seq<char>>) -> Seq<Seq<char>> {
    required_keys().filter(|key: Seq<char>| !defined.contains(key))
}

/// The names of the required settings.
pub fn keys() -> (names: Vec<&'static str>)
    ensures
        names.deep_view() == required_keys(),
{
    let mut names: Vec<&'static str> = Vec::new();
    names.push("RABBIT_HOST");
    names.push("RABBIT_PORT");
    names.push("RABBIT_USER");
    names.push("RABBIT_PASSWORD");
    names.push("RABBIT_QUEUE");
    names.push("RABBIT_EXCHANGE");
    names.push("CONSUMER_NAME");
    names.push("SUPPORTED_CONTENT_TYPE");
    names.push("DATABASE_URL");
    names.push("QUEUE_SIZE");
    names.push("QUEUE_TIMEOUT_SECS");
    names
}

/// Whether `name` is among `defined`.
fn is_defined(defined: &Vec<String>, name: &str) -> (found: bool)
    ensures
        found == defined.deep_view().contains(name@),
{
    let wanted = String::from_str(name);
    let mut i: usize = 0;
    while i < defined.len()
        invariant
            i <= defined.len(),
            wanted@ == name@,
            forall|k: int| 0 <= k < i ==> defined.deep_view()[k] != name@,
        decreases defined.len() - i,
    {
        if defined[i] == wanted {
            assert(defined.deep_view()[i as int] == name@);
            return true;
        }
        i += 1;
    }
    false
}

/// Lists the required settings that are not among the `defined` ones, in
/// checking order.
pub fn missing_keys(defined: &Vec<String>) -> (missing: Vec<&'static str>)
    ensures
        missing.deep_view() == missing_from(defined.deep_view()),
{
    let names = keys();
    let ghost absent = |key: Seq<char>| !defined.deep_view().contains(key);
    let mut missing: Vec<&'static str> = Vec::new();
    let mut i: usize = 0;
    proof {
        reveal(Seq::filter);
    }
    while i < names.len()
        invariant
            i <= names.len(),
            names.deep_view() == required_keys(),
            absent == |key: Seq<char>| !defined.deep_view().contains(key),
            missing.deep_view() == required_keys().take(i as int).filter(absent),
        decreases names.len() - i,
    {
        let name = names[i];
        if !is_defined(defined, name) {
            missing.push(name);
        }
        proof {
            reveal(Seq::filter);
            let upto = required_keys().take(i as int + 1);
            assert(upto.drop_last() =~= required_keys().take(i as int));
        }
        i += 1;
    }
    assert(required_keys().take(i as int) =~= required_keys());
    missing
}

/// What stands in the way of starting with the configuration found: nothing,
/// if the configuration file was loaded and every required setting is among
/// the `defined` ones.
pub open spec fn startup_error(file_loaded: bool, defined: Seq<Seq<char>>) -> Option<ConfigError> {
    if !file_loaded {
        Some(ConfigError::FileUnreadable)
    } else if missing_from(defined).len() > 0 {
        Some(ConfigError::MissingKey)
    } else {
        None
    }
}

/// Checks the configuration found at startup. An unreadable file is reported
/// before a missing setting.
pub fn check_env(file_loaded: bool, defined: &Vec<String>) -> (checked: Result<(), ConfigError>)
    ensures
        checked is Ok <==> startup_error(file_loaded, defined.deep_view()) is None,
        checked matches Err(error) ==> startup_error(file_loaded, defined.deep_view()) == Some(
            error,
        ),
        checked is Ok ==> forall|i: int|
            0 <= i < required_keys().len() ==> defined.deep_view().contains(
                #[trigger] required_keys()[i],
            ),
{
    if !file_loaded {
        return Err(ConfigError::FileUnreadable);
    }
    let missing = missing_keys(defined);
    if missing.len() > 0 {
        return Err(ConfigError::MissingKey);
    }
    proof {
        let absent = |key: Seq<char>| !defined.deep_view().contains(key);
        assert forall|i: int| 0 <= i < required_keys().len() implies defined.deep_view().contains(
            #[trigger] required_keys()[i],
        ) by {
            if absent(required_keys()[i]) {
                required_keys().lemma_filter_contains(absent, i);
            }
        }
    }
    Ok(())
}

/// Whether the configuration is complete: the configuration file was loaded
/// and every required setting is among the `defined` ones.
pub fn load_env(file_loaded: bool, defined: &Vec<String>) -> (ok: bool)
    ensures
        ok == (file_loaded && missing_from(defined.deep_view()).len() == 0),
        ok == (startup_error(file_loaded, defined.deep_view()) is None),
{
    check_env(file_loaded, defined).is_ok()
}

/// The value of a decimal digit.
pub open spec fn digit_value(c: char) -> Option<nat> {
    if '0' <= c && c <= '9' {
        Some((c as nat - '0' as nat) as nat)
    } else {
        None
    }
}

/// The number that a string of decimal digits denotes; `None` if a character
/// other than a digit occurs in it. The empty string denotes zero.
pub open spec fn digits_value(digits: Seq<char>) -> Option<nat>
    decreases digits.len(),
{
    if digits.len() == 0 {
        Some(0)
    } else {
        match (digits_value(digits.drop_last()), digit_value(digits.last())) {
            (Some(high), Some(low)) => Some(high * 10 + low),
            _ => None,
        }
    }
}

/// The number that a setting's text denotes: one or more decimal digits,
/// with an optional `+` in front and nothing else around them.
pub open spec fn unsigned_decimal(text: Seq<char>) -> Option<nat> {
    let digits = if text.len() > 0 && text[0] == '+' {
        text.drop_first()
    } else {
        text
    };
    if digits.len() == 0 {
        None
    } else {
        digits_value(digits)
    }
}

/// What parsing with an upper limit gives: the number, if the text denotes
/// one and it is at most `max`.
pub open spec fn bounded_decimal(text: Seq<char>, max: nat) -> Option<nat> {
    match unsigned_decimal(text) {
        Some(n) => if n <= max {
            Some(n)
        } else {
            None
        },
        None => None,
    }
}

proof fn digits_value_grows(digits: Seq<char>, upto: int)
    requires
        0 <= upto <= digits.len(),
        digits_value(digits) is Some,
    ensures
        digits_value(digits.take(upto)) is Some,
        digits_value(digits.take(upto))->0 <= digits_value(digits)->0,
    decreases digits.len(),
{
    if upto == digits.len() {
        assert(digits.take(upto) =~= digits);
    } else {
        assert(digits.drop_last().take(upto) =~= digits.take(upto));
        digits_value_grows(digits.drop_last(), upto);
    }
}

proof fn digits_value_fails_on(digits: Seq<char>, at: int)
    requires
        0 <= at < digits.len(),
        digit_value(digits[at]) is None,
    ensures
        digits_value(digits) is None,
    decreases digits.len(),
{
    if at < digits.len() - 1 {
        digits_value_fails_on(digits.drop_last(), at);
    }
}

/// Parses a setting as an unsigned decimal number of at most `max`.
pub fn parse_decimal(text: &str, max: u64) -> (parsed: Option<u64>)
    ensures
        parsed is Some <==> bounded_decimal(text@, max as nat) is Some,
        parsed matches Some(n) ==> bounded_decimal(text@, max as nat) == Some(n as nat),
{
    let len = text.unicode_len();
    let start: usize = if len > 0 && text.get_char(0) == '+' {
        1
    } else {
        0
    };
    if start == len {
        return None;
    }
    let ghost digits = if start == 1 {
        text@.drop_first()
    } else {
        text@
    };
    let mut value: u64 = 0;
    let mut i: usize = start;
    while i < len
        invariant
            start <= i <= len,
            len == text@.len(),
            start == 1 <==> text@.len() > 0 && text@[0] == '+',
            start == 0 || start == 1,
            digits == (if start == 1 {
                text@.drop_first()
            } else {
                text@
            }),
            digits.len() == len - start,
            digits_value(digits.take(i - start)) == Some(value as nat),
            value <= max,
        decreases len - i,
    {
        let c = text.get_char(i);
        let ghost upto = digits.take(i - start + 1);
        proof {
            assert(upto.drop_last() =~= digits.take(i - start));
        }
        if c < '0' || c > '9' {
            proof {
                digits_value_fails_on(digits, i - start);
            }
            return None;
        }
        let digit: u64 = (c as u32 - '0' as u32) as u64;
        if digit > max || value > (max - digit) / 10 {
            proof {
                if digits_value(digits) is Some {
                    digits_value_grows(digits, i - start + 1);
                }
            }
            return None;
        }
        value = value * 10 + digit;
        i += 1;
    }
    proof {
        assert(digits.take(i - start) =~= digits);
    }
    Some(value)
}

/// The batch size that a setting's text asks for; the default of 50 where the
/// text is no number that fits.
pub fn batch_size_setting(raw: &str) -> (size: usize)
    ensures
        size == (match bounded_decimal(raw@, usize::MAX as nat) {
            Some(n) => n,
            None => DEFAULT_BATCH_SIZE as nat,
        }),
{
    match parse_decimal(raw, usize::MAX as u64) {
        Some(n) => n as usize,
        None => DEFAULT_BATCH_SIZE,
    }
}

/// The idle timeout, in seconds, that a setting's text asks for; the default
/// of 10 where the text is no number that fits.
pub fn idle_timeout_setting(raw: &str) -> (secs: u64)
    ensures
        secs == (match bounded_decimal(raw@, u64::MAX as nat) {
            Some(n) => n,
            None => DEFAULT_IDLE_TIMEOUT_SECS as nat,
        }),
{
    match parse_decimal(raw, u64::MAX) {
        Some(n) => n,
        None => DEFAULT_IDLE_TIMEOUT_SECS,
    }
}

/// A timeout in seconds as milliseconds, capped at the largest instant.
pub fn timeout_millis(secs: u64) -> (millis: u64)
    ensures
        millis == (if secs * 1000 <= u64::MAX {
            secs * 1000
        } else {
            u64::MAX as int
        }),
{
    if secs <= u64::MAX / 1000 {
        secs * 1000
    } else {
        u64::MAX
    }
}

/// The port on which the read API listens when none is configured.
pub const DEFAULT_PORT: u16 = 8080;

/// The port that the read API listens on: the configured one, or 8080 where
/// none is configured. A setting that is no number between 1 and 65535 is an
/// error.
pub fn listen_port(raw: Option<&str>) -> (port: Result<u16, ConfigError>)
    ensures
        port == (match raw {
            None => Ok::<u16, ConfigError>(DEFAULT_PORT),
            Some(text) => match bounded_decimal(text@, u16::MAX as nat) {
                Some(n) => if n >= 1 {
                    Ok(n as u16)
                } else {
                    Err(ConfigError::InvalidPort)
                },
                None => Err(ConfigError::InvalidPort),
            },
        }),
{
    match raw {
        None => Ok(DEFAULT_PORT),
        Some(text) => match parse_decimal(text, 65535) {
            Some(n) => {
                if n >= 1 {
                    Ok(n as u16)
                } else {
                    Err(ConfigError::InvalidPort)
                }
            },
            None => Err(ConfigError::InvalidPort),
        },
    }
}

/// A textual setting, or `fallback` where it is not configured.
pub fn setting_or(raw: Option<String>, fallback: &str) -> (value: String)
    ensures
        value@ == (match raw {
            Some(text) => text@,
            None => fallback@,
        }),
{
    match raw {
        Some(text) => text,
        None => String::from_str(fallback),
    }
}

} // verus!
