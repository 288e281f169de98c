//! The timestamp Evaluator and Formatter: trusted wrappers around the
//! chrono-systemd-time parser and chrono's strftime rendering, together with
//! the library's own evaluation-error taxonomy, whose display text is built
//! by verified code and matches the evaluator's own rendering of each error.

use std::fmt::Write;
use vstd::prelude::*;

verus! {

/// A parsed instant in the UTC time zone, produced by the evaluator and
/// carried opaquely to the formatter.
#[verifier::external_body]
pub struct UtcInstant {
    dt: chrono::DateTime<chrono::Utc>,
}

/// A parsed instant in the local time zone, produced by the evaluator and
/// carried opaquely to the formatter.
#[verifier::external_body]
pub struct LocalInstant {
    dt: chrono::DateTime<chrono::Local>,
}

/// Why the evaluation of a timestamp specification failed. The variants carry
/// over, one for one, those of the evaluator's own error type.
#[derive(Debug)]
pub enum EvalError {
    /// The specification is incorrectly formatted.
    Format(String),
    /// A component could not be parsed into a number, or overflowed.
    Number(String),
    /// A component could not be parsed into a time unit.
    TimeUnit(String),
    /// The specification names a time that does not exist in the time zone.
    Never,
}

impl EvalError {
    /// The display text of the failure, as the evaluator renders it.
    pub open spec fn message_text(&self) -> Seq<char> {
        match self {
            EvalError::Format(m) => "invalid timestamp format: "@ + m@,
            EvalError::Number(m) => "invalid timestamp number: "@ + m@,
            EvalError::TimeUnit(u) => "invalid time unit: "@ + u@,
            EvalError::Never => "invalid timestamp in the given timezone"@,
        }
    }

    /// Renders the display text of the failure.
    pub fn message(&self) -> (r: String)
        ensures
            r@ == self.message_text(),
    {
        match self {
            EvalError::Format(m) => {
                let mut r = String::from_str("invalid timestamp format: ");
                r.append(m.as_str());
                r
            },
            EvalError::Number(m) => {
                let mut r = String::from_str("invalid timestamp number: ");
                r.append(m.as_str());
                r
            },
            EvalError::TimeUnit(u) => {
                let mut r = String::from_str("invalid time unit: ");
                r.append(u.as_str());
                r
            },
            EvalError::Never => String::from_str("invalid timestamp in the given timezone"),
        }
    }
}

/// What evaluating the specification in the UTC zone returns: nothing on
/// success, or the display text of the error. Every failure arises while
/// parsing, before any clock reading; the error text embeds only fragments of
/// the input; and a parsed datetime converts to UTC uniquely. So the outcome
/// is a function of the specification alone, and the two evaluation wrappers
/// may share this name.
pub uninterp spec fn utc_eval_failure(timespec: Seq<char>) -> Option<Seq<char>>;

/// Relies on chrono_systemd_time::parse_timestamp_tz with chrono::Utc:
/// whether it fails, and with which display text, is a function of the
/// specification alone, named by `utc_eval_failure`; nothing is promised of
/// the instant, which depends on the clock. An ambiguous local time comes
/// back as the earlier instant first, and the error variants are carried over
/// one for one. Its datetime arithmetic is unchecked and aborts outside the
/// representable range, so only specifications within the range guard's caps
/// are admitted (which keeps every sum thousands of years inside the range,
/// assuming the system clock reads an ordinary date).
#[verifier::external_body]
pub(crate) fn eval_timestamp_utc(timespec: &str) -> (r: Result<
    (UtcInstant, Option<UtcInstant>),
    EvalError,
>)
    requires
        crate::bounds::eval_in_range(timespec@),
    ensures
        r is Ok <==> utc_eval_failure(timespec@) is None,
        r matches Err(e) ==> utc_eval_failure(timespec@) == Some(e.message_text()),
{
    match chrono_systemd_time::parse_timestamp_tz(timespec, chrono::Utc) {
        Ok(chrono_systemd_time::LocalDateTime::Single(dt)) => Ok((UtcInstant { dt }, None)),
        Ok(chrono_systemd_time::LocalDateTime::Ambiguous(a, b)) => Ok(
            (UtcInstant { dt: a }, Some(UtcInstant { dt: b })),
        ),
        Err(chrono_systemd_time::Error::Format(m)) => Err(EvalError::Format(m)),
        Err(chrono_systemd_time::Error::Number(m)) => Err(EvalError::Number(m)),
        Err(chrono_systemd_time::Error::TimeUnit(u)) => Err(EvalError::TimeUnit(u)),
        Err(chrono_systemd_time::Error::Never) => Err(EvalError::Never),
    }
}

/// Relies on chrono_systemd_time::parse_timestamp_tz with chrono::Local: as
/// the UTC wrapper, with the same range guard keeping its unchecked datetime
/// arithmetic inside the representable range. The parse phase is
/// zone-independent, so its failures and their texts are those the UTC zone
/// names; but the instant, and whether a parsed local time exists at all (the
/// `Never` outcome), depend on the system's time zone, so success cannot be
/// promised.
#[verifier::external_body]
pub(crate) fn eval_timestamp_local(timespec: &str) -> (r: Result<
    (LocalInstant, Option<LocalInstant>),
    EvalError,
>)
    requires
        crate::bounds::eval_in_range(timespec@),
    ensures
        r is Ok ==> utc_eval_failure(timespec@) is None,
        r matches Err(e) ==> (e is Never && utc_eval_failure(timespec@) is None)
            || utc_eval_failure(timespec@) == Some(e.message_text()),
{
    match chrono_systemd_time::parse_timestamp_tz(timespec, chrono::Local) {
        Ok(chrono_systemd_time::LocalDateTime::Single(dt)) => Ok((LocalInstant { dt }, None)),
        Ok(chrono_systemd_time::LocalDateTime::Ambiguous(a, b)) => Ok(
            (LocalInstant { dt: a }, Some(LocalInstant { dt: b })),
        ),
        Err(chrono_systemd_time::Error::Format(m)) => Err(EvalError::Format(m)),
        Err(chrono_systemd_time::Error::Number(m)) => Err(EvalError::Number(m)),
        Err(chrono_systemd_time::Error::TimeUnit(u)) => Err(EvalError::TimeUnit(u)),
        Err(chrono_systemd_time::Error::Never) => Err(EvalError::Never),
    }
}

/// Whether chrono's strftime rendering rejects the pattern. With a full
/// date-time every directive can be rendered, so failure is a function of the
/// pattern alone: it arises exactly on an invalid directive.
pub uninterp spec fn pattern_rejected(p: Seq<char>) -> bool;

/// Relies on chrono::DateTime::format and the Display of its DelayedFormat:
/// rendering writes the instant per the pattern, and reports a formatting
/// error exactly on a pattern with an invalid directive, returned here as
/// None.
#[verifier::external_body]
pub(crate) fn format_datetime_utc(instant: &UtcInstant, pattern: &str) -> (r: Option<
    String,
>)
    ensures
        r is Some <==> !pattern_rejected(pattern@),
{
    let mut out = String::new();
    match write!(out, "{}", instant.dt.format(pattern)) {
        Ok(()) => Some(out),
        Err(_) => None,
    }
}

/// Relies on chrono::DateTime::format and the Display of its DelayedFormat,
/// as the UTC wrapper, for an instant carrying the local offset.
#[verifier::external_body]
pub(crate) fn format_datetime_local(
    instant: &LocalInstant,
    pattern: &str,
) -> (r: Option<String>)
    ensures
        r is Some <==> !pattern_rejected(pattern@),
{
    let mut out = String::new();
    match write!(out, "{}", instant.dt.format(pattern)) {
        Ok(()) => Some(out),
        Err(_) => None,
    }
}

} // verus!
