//! Parses systemd.time-style timestamp specifications and renders them with a
//! strftime-like pattern, in either the local or the UTC time zone. The
//! grammar itself is evaluated by an outside library; this crate holds the
//! verified shell around it: the joined-token hint detector, the error
//! taxonomy with its exact display text, and the dispatch between the two
//! time zones.

pub mod bounds;
pub mod dispatch;
pub mod evaluator;
pub mod hint;

use vstd::prelude::*;

verus! {

/// The reference document for the systemd.time grammar, linked from the help
/// text and from the hint printed for a joined special token.
pub open spec fn url_text() -> Seq<char> {
    "https://www.freedesktop.org/software/systemd/man/latest/systemd.time.html"@
}

/// The reference document for the systemd.time grammar, linked from the help
/// text and from the hint printed for a joined special token.
pub fn systemd_time_url() -> (r: &'static str)
    ensures
        r@ == url_text(),
{
    "https://www.freedesktop.org/software/systemd/man/latest/systemd.time.html"
}

/// The long help text: a short description, usage examples, and the link to
/// the systemd.time reference document.
pub open spec fn long_about_text() -> Seq<char> {
    "Parse systemd.time string specifications and output formatted timestamps.\n\nEXAMPLES:\n    systemd-timefmt \"now -1hr\"\n    systemd-timefmt \"today +2days\"\n    systemd-timefmt \"11min ago\"\n    systemd-timefmt \"+3hr\"\n    systemd-timefmt \"tomorrow -3h30m\"\n    systemd-timefmt \"@1529578800s\"\n    systemd-timefmt \"2023-12-25 15:30:00\" --format \"%B %d, %Y at %I:%M %p\"\n\nSupports systemd.time format, including relative times (now, today, yesterday, tomorrow),\nabsolute timestamps, epoch times, and time arithmetic with units like h, m, s, d, w, M, y.\n\nFor more details: "@
        + url_text()
}

/// The long help text: a short description, usage examples, and the link to
/// the systemd.time reference document.
pub fn long_about() -> (r: String)
    ensures
        r@ == long_about_text(),
{
    let mut r = String::from_str(
        "Parse systemd.time string specifications and output formatted timestamps.\n\nEXAMPLES:\n    systemd-timefmt \"now -1hr\"\n    systemd-timefmt \"today +2days\"\n    systemd-timefmt \"11min ago\"\n    systemd-timefmt \"+3hr\"\n    systemd-timefmt \"tomorrow -3h30m\"\n    systemd-timefmt \"@1529578800s\"\n    systemd-timefmt \"2023-12-25 15:30:00\" --format \"%B %d, %Y at %I:%M %p\"\n\nSupports systemd.time format, including relative times (now, today, yesterday, tomorrow),\nabsolute timestamps, epoch times, and time arithmetic with units like h, m, s, d, w, M, y.\n\nFor more details: ",
    );
    r.append(systemd_time_url());
    r
}

/// The pattern used when no `--format` is given: an ISO-like date and time.
pub open spec fn default_pattern_text() -> Seq<char> {
    "%Y-%m-%d %H:%M:%S"@
}

/// The pattern used when no `--format` is given: an ISO-like date and time.
pub fn default_format_pattern() -> (r: &'static str)
    ensures
        r@ == default_pattern_text(),
{
    "%Y-%m-%d %H:%M:%S"
}

} // verus!
