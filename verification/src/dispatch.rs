//! The dispatcher: selects the time zone, evaluates the specification, and on
//! success renders the instant with the active pattern; on failure it builds
//! a report holding the error's display text and, when the input has the
//! joined-token shape, the corrective hint.

use crate::bounds::{eval_in_range, within_evaluation_range};
use crate::evaluator::{
    eval_timestamp_local, eval_timestamp_utc, format_datetime_local, format_datetime_utc,
    pattern_rejected, utc_eval_failure, EvalError,
};
use crate::hint::{hint_applies, hint_message, hint_message_text};
use vstd::prelude::*;

verus! {

/// The time zone the rendered timestamp is expressed in.
#[derive(Clone, Copy, PartialEq, Eq, Structural)]
pub enum TimeZoneSelector {
    Utc,
    Local,
}

/// What one failed invocation reports: the error's display text, and the
/// corrective hint when the input has the joined-token shape.
#[derive(Debug)]
pub struct FailureReport {
    pub error: String,
    pub hint: Option<String>,
}

/// The error text used when the formatter rejects the pattern.
pub open spec fn pattern_error_text(pattern: Seq<char>) -> Seq<char> {
    "invalid format pattern: "@ + pattern
}

/// The error text used when the range guard refuses the specification.
pub open spec fn range_error_text(timespec: Seq<char>) -> Seq<char> {
    "invalid timestamp range: "@ + timespec
}

/// The range-guard error text never coincides with an evaluation error's
/// display text: the two differ within their fixed opening words, whatever
/// follows them.
proof fn lemma_range_text_is_not_eval_text(timespec: Seq<char>, e: EvalError)
    ensures
        range_error_text(timespec) != e.message_text(),
{
    reveal_strlit("invalid timestamp range: ");
    reveal_strlit("invalid timestamp format: ");
    reveal_strlit("invalid timestamp number: ");
    reveal_strlit("invalid time unit: ");
    reveal_strlit("invalid timestamp in the given timezone");
    assert(range_error_text(timespec)[18] == 'r');
    match e {
        EvalError::Format(m) => {
            assert(e.message_text()[18] == 'f');
        },
        EvalError::Number(m) => {
            assert(e.message_text()[18] == 'n');
        },
        EvalError::TimeUnit(u) => {
            assert(range_error_text(timespec)[12] == 's');
            assert(e.message_text()[12] == ' ');
        },
        EvalError::Never => {
            assert(e.message_text()[18] == 'i');
        },
    }
}

/// The range-guard error text never coincides with the rejected-pattern error
/// text: the two differ within their fixed opening words.
proof fn lemma_range_text_is_not_pattern_text(timespec: Seq<char>, pattern: Seq<char>)
    ensures
        range_error_text(timespec) != pattern_error_text(pattern),
{
    reveal_strlit("invalid timestamp range: ");
    reveal_strlit("invalid format pattern: ");
    assert(range_error_text(timespec)[8] == 't');
    assert(pattern_error_text(pattern)[8] == 'f');
}

/// Builds the report for a specification that the range guard refuses: its
/// numbers would push the evaluator's datetime arithmetic out of range.
pub fn range_report(timespec: &str) -> (r: FailureReport)
    ensures
        r.error@ == range_error_text(timespec@),
        r.hint is Some <==> hint_applies(timespec@),
        r.hint matches Some(h) ==> h@ == hint_message_text(timespec@),
{
    let mut error = String::from_str("invalid timestamp range: ");
    error.append(timespec);
    FailureReport { error, hint: hint_message(timespec) }
}

/// Builds the report for a failed evaluation: the error's display text
/// verbatim, and the hint exactly when the input has the joined-token shape.
pub fn failure_report(timespec: &str, err: &EvalError) -> (r: FailureReport)
    ensures
        r.error@ == err.message_text(),
        r.hint is Some <==> hint_applies(timespec@),
        r.hint matches Some(h) ==> h@ == hint_message_text(timespec@),
{
    FailureReport { error: err.message(), hint: hint_message(timespec) }
}

/// Turns the formatter's outcome into the dispatcher's result: a rendered
/// line passes through unchanged; a rejected pattern becomes a failure report
/// with the usual hint.
pub fn finish_render(timespec: &str, rendered: Option<String>, pattern: &str) -> (r: Result<
    String,
    FailureReport,
>)
    ensures
        r is Ok <==> rendered is Some,
        rendered matches Some(line) ==> (r matches Ok(l) && l@ == line@),
        rendered is None ==> (r matches Err(f) && {
            &&& f.error@ == pattern_error_text(pattern@)
            &&& (f.hint is Some <==> hint_applies(timespec@))
            &&& (f.hint matches Some(h) ==> h@ == hint_message_text(timespec@))
        }),
{
    match rendered {
        Some(line) => Ok(line),
        None => {
            let mut error = String::from_str("invalid format pattern: ");
            error.append(pattern);
            Err(FailureReport { error, hint: hint_message(timespec) })
        },
    }
}

/// Evaluates the specification in the selected time zone and renders it with
/// the pattern. A specification outside the range guard's caps is refused
/// before the evaluator sees it, and the range error arises exactly there. On
/// any failure the result carries the error's display text — drawn from the
/// evaluation-error taxonomy, naming the rejected pattern, or naming the
/// out-of-range specification — and the corrective hint exactly when the
/// input has the joined-token shape. In the UTC zone the evaluator's outcome
/// is a function of the specification alone, so success is owed there: an
/// in-range specification the evaluator accepts, with a pattern the formatter
/// accepts, yields the rendered line. In the local zone a parsed time may not
/// exist in the system's time zone, so only the failure texts are pinned. An
/// ambiguous local time is rendered as its earlier instant.
pub fn dispatch(timespec: &str, zone: TimeZoneSelector, pattern: &str) -> (r: Result<
    String,
    FailureReport,
>)
    ensures
        r matches Err(f) ==> {
            &&& (f.hint is Some <==> hint_applies(timespec@))
            &&& (f.hint matches Some(h) ==> h@ == hint_message_text(timespec@))
            &&& ((exists|e: EvalError| f.error@ == #[trigger] e.message_text()) || f.error@
                == pattern_error_text(pattern@) || f.error@ == range_error_text(timespec@))
        },
        r is Ok ==> eval_in_range(timespec@) && !pattern_rejected(pattern@),
        !eval_in_range(timespec@) <==> (r is Err && r->Err_0.error@ == range_error_text(
            timespec@,
        )),
        zone is Utc && eval_in_range(timespec@) ==> (match r {
            Ok(_) => utc_eval_failure(timespec@) is None && !pattern_rejected(pattern@),
            Err(f) => {
                ||| (utc_eval_failure(timespec@) matches Some(m) && f.error@ == m)
                ||| (utc_eval_failure(timespec@) is None && pattern_rejected(pattern@)
                    && f.error@ == pattern_error_text(pattern@))
            },
        }),
        zone is Local && eval_in_range(timespec@) ==> (match r {
            Ok(_) => true,
            Err(f) => {
                ||| (utc_eval_failure(timespec@) matches Some(m) && f.error@ == m)
                ||| f.error@ == "invalid timestamp in the given timezone"@
                ||| (pattern_rejected(pattern@) && f.error@ == pattern_error_text(pattern@))
            },
        }),
{
    if !within_evaluation_range(timespec) {
        return Err(range_report(timespec));
    }
    match zone {
        TimeZoneSelector::Utc => match eval_timestamp_utc(timespec) {
            Ok((dt, _later)) => {
                let rendered = format_datetime_utc(&dt, pattern);
                proof {
                    lemma_range_text_is_not_pattern_text(timespec@, pattern@);
                }
                finish_render(timespec, rendered, pattern)
            },
            Err(e) => {
                proof {
                    lemma_range_text_is_not_eval_text(timespec@, e);
                }
                Err(failure_report(timespec, &e))
            },
        },
        TimeZoneSelector::Local => match eval_timestamp_local(timespec) {
            Ok((dt, _later)) => {
                let rendered = format_datetime_local(&dt, pattern);
                proof {
                    lemma_range_text_is_not_pattern_text(timespec@, pattern@);
                }
                finish_render(timespec, rendered, pattern)
            },
            Err(e) => {
                proof {
                    lemma_range_text_is_not_eval_text(timespec@, e);
                }
                Err(failure_report(timespec, &e))
            },
        },
    }
}

} // verus!
