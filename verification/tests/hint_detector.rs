use systemd_timefmt::hint::{detect_hint, hint_message};

#[test]
fn detects_now_joined_minus() {
    let h = detect_hint("now-1h").unwrap();
    assert_eq!(h.token, "now");
    assert_eq!(h.suggestion, "now -1h");
}

#[test]
fn detects_today_joined_plus() {
    let h = detect_hint("today+2days").unwrap();
    assert_eq!(h.token, "today");
    assert_eq!(h.suggestion, "today +2days");
}

#[test]
fn detects_yesterday_joined_plus() {
    let h = detect_hint("yesterday+1d").unwrap();
    assert_eq!(h.token, "yesterday");
    assert_eq!(h.suggestion, "yesterday +1d");
}

#[test]
fn detects_tomorrow_joined_minus() {
    let h = detect_hint("tomorrow-3h30m").unwrap();
    assert_eq!(h.token, "tomorrow");
    assert_eq!(h.suggestion, "tomorrow -3h30m");
}

#[test]
fn empty_tail_still_matches() {
    let h = detect_hint("now-").unwrap();
    assert_eq!(h.token, "now");
    assert_eq!(h.suggestion, "now -");
}

#[test]
fn rejects_embedded_token() {
    assert!(detect_hint("xnow-1h").is_none());
}

#[test]
fn rejects_token_followed_by_space() {
    assert!(detect_hint("now -1h").is_none());
}

#[test]
fn rejects_bare_token() {
    assert!(detect_hint("now").is_none());
    assert!(detect_hint("tomorrow").is_none());
}

#[test]
fn rejects_token_followed_by_letter() {
    assert!(detect_hint("todays+1").is_none());
    assert!(detect_hint("nowhere").is_none());
}

#[test]
fn rejects_empty_input() {
    assert!(detect_hint("").is_none());
}

#[test]
fn message_contains_input_and_suggestion() {
    let m = hint_message("today+2days").unwrap();
    assert!(!m.is_empty());
    assert!(m.contains("today+2days"));
    assert!(m.contains("Try writing: `today +2days`"));
    assert!(m.contains(
        "https://www.freedesktop.org/software/systemd/man/latest/systemd.time.html"
    ));
}

#[test]
fn message_matches_expected_wording() {
    let m = hint_message("now-1h").unwrap();
    assert!(m.starts_with("\nYou wrote `now-1h` which uses a special token (`now`)"));
    assert!(m.contains("a space is required after `now`"));
    assert!(m.ends_with(".\n"));
}

#[test]
fn no_message_for_plain_input() {
    assert!(hint_message("2023-12-25 15:30:00").is_none());
    assert!(hint_message("11min ago").is_none());
    assert!(hint_message("+3hr").is_none());
}

#[test]
fn agrees_with_reference_regex() {
    let re = regex::Regex::new(r"^(now|today|yesterday|tomorrow)[+-]").unwrap();
    let samples = [
        "now-1h",
        "now+2m",
        "today-",
        "yesterday+1d",
        "tomorrow-3h30m",
        "xnow-1h",
        "now -1h",
        "nowhere",
        "todays+1",
        "",
        "+3h",
        "-2m",
        "@1529578800s",
        "tomorrow",
        "yesterday+",
        "today +2days",
        "now--",
    ];
    for s in samples {
        match (re.captures(s), detect_hint(s)) {
            (Some(caps), Some(h)) => assert_eq!(&caps[1], h.token.as_str()),
            (None, None) => {}
            (got_re, got_hint) => panic!(
                "disagreement on {:?}: regex {:?}, detector {:?}",
                s,
                got_re.is_some(),
                got_hint.is_some()
            ),
        }
    }
}
