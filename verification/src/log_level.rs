//! The logger's maximum level, read from its configured name.
use crate::error::CommonError;
use crate::handler::ascii_lower;
use std::str::FromStr;
use vstd::prelude::*;

verus! {

/// A log level, from the most to the least severe.
#[derive(Debug, Clone, Copy, PartialEq, Eq, Structural)]
pub enum LogLevel {
    Error,
    Warn,
    Info,
    Debug,
    Trace,
}

/// The rank of a log level as `tracing` numbers them: 1 for error up to 5
/// for trace.
pub open spec fn level_rank(level: LogLevel) -> u8 {
    match level {
        LogLevel::Error => 1,
        LogLevel::Warn => 2,
        LogLevel::Info => 3,
        LogLevel::Debug => 4,
        LogLevel::Trace => 5,
    }
}

/// Whether `c` is an ASCII decimal digit.
pub open spec fn is_ascii_digit(c: char) -> bool {
    '0' <= c && c <= '9'
}

/// The value of a string of decimal digits.
pub open spec fn digits_value(d: Seq<char>) -> int
    decreases d.len(),
{
    if d.len() == 0 {
        0
    } else {
        digits_value(d.drop_last()) * 10 + (d.last() as int - 48)
    }
}

/// The number that `usize::from_str` reads from `text`, as documented: an
/// optional `+` followed by one or more decimal digits (a number too large
/// for `usize` is refused there; it is no rank either way).
pub open spec fn decimal_value(text: Seq<char>) -> Option<int> {
    let d = if text.len() > 0 && text[0] == '+' {
        text.skip(1)
    } else {
        text
    };
    if d.len() > 0 && forall|i: int| 0 <= i < d.len() ==> is_ascii_digit(#[trigger] d[i]) {
        Some(digits_value(d))
    } else {
        None
    }
}

/// The rank of the level that `tracing::Level::from_str` reads from `text`,
/// as its source has it: a number from 1 to 5 is that rank; otherwise the
/// name of a level in any ASCII case; anything else is no level.
pub open spec fn parsed_level_rank(text: Seq<char>) -> Option<u8> {
    match decimal_value(text) {
        Some(n) if 1 <= n <= 5 => Some(n as u8),
        _ => if names_ignoring_case(text, "error"@) {
            Some(1u8)
        } else if names_ignoring_case(text, "warn"@) {
            Some(2u8)
        } else if names_ignoring_case(text, "info"@) {
            Some(3u8)
        } else if names_ignoring_case(text, "debug"@) {
            Some(4u8)
        } else if names_ignoring_case(text, "trace"@) {
            Some(5u8)
        } else {
            None
        },
    }
}

/// Whether `text` is `word` (given in lower case) in any mix of ASCII cases.
pub open spec fn names_ignoring_case(text: Seq<char>, word: Seq<char>) -> bool {
    text.len() == word.len() && forall|i: int| 0 <= i < text.len() ==> #[trigger] ascii_lower(text[i]) == word[i]
}

/// A read rank, or nothing for an error.
pub open spec fn rank_view(r: Result<u8, String>) -> Option<u8> {
    match r {
        Ok(n) => Some(n),
        Err(_) => None,
    }
}

/// `tracing::Level::from_str`, its level given by rank (see
/// [`parsed_level_rank`]); the error is carried as its message.
#[verifier::external_body]
fn level_from_str(text: &str) -> (r: Result<u8, String>)
    ensures
        rank_view(r) == parsed_level_rank(text@),
{
    match tracing::Level::from_str(text) {
        Ok(level) => Ok(
            match level {
                tracing::Level::ERROR => 1,
                tracing::Level::WARN => 2,
                tracing::Level::INFO => 3,
                tracing::Level::DEBUG => 4,
                _ => 5,
            },
        ),
        Err(e) => Err(e.to_string()),
    }
}

/// The logger's maximum level named by `max_log_level` (as `tracing` reads
/// level names); a name it does not read is refused.
pub fn parse_log_level(max_log_level: &str) -> (r: Result<LogLevel, CommonError>)
    ensures
        match parsed_level_rank(max_log_level@) {
            Some(n) => r matches Ok(level) && level_rank(level) == n,
            None => r matches Err(CommonError::ParseLogLevel(_)),
        },
{
    match level_from_str(max_log_level) {
        Ok(1) => Ok(LogLevel::Error),
        Ok(2) => Ok(LogLevel::Warn),
        Ok(3) => Ok(LogLevel::Info),
        Ok(4) => Ok(LogLevel::Debug),
        Ok(_) => Ok(LogLevel::Trace),
        Err(message) => Err(CommonError::ParseLogLevel(message)),
    }
}

} // verus!
