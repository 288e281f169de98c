use systemd_timefmt::bounds::within_evaluation_range;
use systemd_timefmt::dispatch::{dispatch, TimeZoneSelector};

#[test]
fn ordinary_specifications_pass_the_guard() {
    let samples = [
        "now",
        "now -1hr",
        "today +2days",
        "11min ago",
        "+3hr",
        "tomorrow -3h30m",
        "@1529578800s",
        "2023-12-25 15:30:00",
        "2018-08-20 09:11:12.123",
        "4h50m left",
        "100y",
        "now +4h50m",
        "epoch +1529578800s",
        "now +5\u{b5}s",
        "",
        "definitely not a time",
    ];
    for s in samples {
        assert!(within_evaluation_range(s), "guard refused {:?}", s);
    }
}

#[test]
fn huge_fraction_is_refused() {
    assert!(!within_evaluation_range(
        "2018-08-20 09:11:12.9223372036854775807"
    ));
    let report = dispatch(
        "2018-08-20 09:11:12.9223372036854775807",
        TimeZoneSelector::Utc,
        "%Y",
    )
    .unwrap_err();
    assert_eq!(
        report.error,
        "invalid timestamp range: 2018-08-20 09:11:12.9223372036854775807"
    );
    assert!(report.hint.is_none());
}

#[test]
fn huge_negative_fraction_is_refused() {
    assert!(!within_evaluation_range(
        "09:11:12.-9223372036854775808"
    ));
    let report = dispatch(
        "09:11:12.-9223372036854775808",
        TimeZoneSelector::Utc,
        "%Y",
    )
    .unwrap_err();
    assert!(report.error.starts_with("invalid timestamp range:"));
}

#[test]
fn huge_offset_is_refused() {
    assert!(!within_evaluation_range("+9223372036854775807us"));
    let report = dispatch("+9223372036854775807us", TimeZoneSelector::Utc, "%Y").unwrap_err();
    assert!(report.error.starts_with("invalid timestamp range:"));
    assert!(report.hint.is_none());
}

#[test]
fn offset_in_the_panic_window_is_refused() {
    assert!(!within_evaluation_range("now +270000y"));
    let report = dispatch("now +270000y", TimeZoneSelector::Local, "%Y").unwrap_err();
    assert!(report.error.starts_with("invalid timestamp range:"));
}

#[test]
fn summed_components_are_refused() {
    let mut spec = String::from("now +");
    for _ in 0..27 {
        spec.push_str("9999y ");
    }
    assert!(!within_evaluation_range(&spec));
    let report = dispatch(&spec, TimeZoneSelector::Utc, "%Y").unwrap_err();
    assert!(report.error.starts_with("invalid timestamp range:"));
}

#[test]
fn year_near_the_datetime_bound_is_refused() {
    assert!(!within_evaluation_range("262142-12-31 23:59:59"));
    let report = dispatch("262142-12-31 23:59:59", TimeZoneSelector::Utc, "%Y").unwrap_err();
    assert!(report.error.starts_with("invalid timestamp range:"));
}

#[test]
fn refused_joined_token_still_carries_the_hint() {
    let report = dispatch("now+9223372036854775807us", TimeZoneSelector::Utc, "%Y").unwrap_err();
    assert!(report.error.starts_with("invalid timestamp range:"));
    assert!(report
        .hint
        .unwrap()
        .contains("Try writing: `now +9223372036854775807us`"));
}

#[test]
fn unreadable_number_still_reaches_the_evaluator() {
    // A run too long for a 64-bit value is the evaluator's own error, not the
    // guard's: it fails to parse before any arithmetic.
    assert!(within_evaluation_range("now +99999999999999999999s"));
    let report = dispatch("now +99999999999999999999s", TimeZoneSelector::Utc, "%Y").unwrap_err();
    assert!(report.error.starts_with("invalid timestamp number:"));
}

#[test]
fn large_but_safe_offsets_still_render() {
    let line = dispatch("now +100000d", TimeZoneSelector::Utc, "%Y").unwrap();
    assert!(!line.is_empty());
}
