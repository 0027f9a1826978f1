//! The routing of the messages that the disc library logs: which severity
//! each level gets, and which messages are passed on at all.

use vstd::prelude::*;

use crate::text::{c_string_text, c_text, opt_bytes};

verus! {

/// The library's level of debug messages.
pub const CDIO_LOG_DEBUG: u32 = 1;

/// The library's level of informational messages.
pub const CDIO_LOG_INFO: u32 = 2;

/// The library's level of warnings.
pub const CDIO_LOG_WARN: u32 = 3;

/// The library's level of errors.
pub const CDIO_LOG_ERROR: u32 = 4;

/// The library's level of failed assertions.
pub const CDIO_LOG_ASSERT: u32 = 5;

/// The severity at which a message is passed on.
#[derive(Clone, Copy, Debug, PartialEq, Eq)]
pub enum LogSeverity {
    Error,
    Warn,
    Info,
    Debug,
}

/// The severity of a message at library level `level`: failed assertions
/// and errors are errors, warnings and informational messages keep their
/// level, everything else is debug output.
pub open spec fn severity_of(level: u32) -> LogSeverity {
    if level == CDIO_LOG_ASSERT || level == CDIO_LOG_ERROR {
        LogSeverity::Error
    } else if level == CDIO_LOG_WARN {
        LogSeverity::Warn
    } else if level == CDIO_LOG_INFO {
        LogSeverity::Info
    } else {
        LogSeverity::Debug
    }
}

/// The severity of a message at library level `level`.
pub fn log_severity(level: u32) -> (r: LogSeverity)
    ensures
        r == severity_of(level),
{
    if level == CDIO_LOG_ASSERT || level == CDIO_LOG_ERROR {
        LogSeverity::Error
    } else if level == CDIO_LOG_WARN {
        LogSeverity::Warn
    } else if level == CDIO_LOG_INFO {
        LogSeverity::Info
    } else {
        LogSeverity::Debug
    }
}

/// What to pass on of a message that the library logs at `level`, given as
/// a C string (`None` for a null pointer): nothing where there is no
/// message or where it is not well-formed UTF-8, else its severity and
/// text.
pub fn log_record(level: u32, message: Option<&[u8]>) -> (r: Option<(LogSeverity, String)>)
    ensures
        match r {
            Some((sev, text)) => sev == severity_of(level) && c_text(opt_bytes(message))
                == Some(text@),
            None => c_text(opt_bytes(message)) is None,
        },
{
    match c_string_text(message) {
        Some(text) => Some((log_severity(level), text)),
        None => None,
    }
}

/// The rank of a severity: debug 0, informational 1, warning 2, error 3.
pub open spec fn severity_rank(s: LogSeverity) -> int {
    match s {
        LogSeverity::Debug => 0,
        LogSeverity::Info => 1,
        LogSeverity::Warn => 2,
        LogSeverity::Error => 3,
    }
}

/// Severities follow the library's levels, which count up from debug (1)
/// through informational, warning and error to failed assertions (5): a
/// level of rank `n` below errors keeps rank `n - 1`, errors and failed
/// assertions are errors, so a higher level never gets a lower severity;
/// any other number is debug output.
pub proof fn lemma_severity_follows_level(a: u32, b: u32)
    ensures
        CDIO_LOG_DEBUG <= a <= CDIO_LOG_ASSERT ==> severity_rank(severity_of(a)) == (if a
            >= CDIO_LOG_ERROR {
            3
        } else {
            a - 1
        }),
        CDIO_LOG_DEBUG <= a <= b <= CDIO_LOG_ASSERT ==> severity_rank(severity_of(a))
            <= severity_rank(severity_of(b)),
        !(CDIO_LOG_DEBUG <= a <= CDIO_LOG_ASSERT) ==> severity_of(a) == LogSeverity::Debug,
{
}

} // verus!
