use reminders::calendar::Instant;
use reminders::config::is_http_url;
use reminders::config::parse_override;
use reminders::config::plan_source;
use reminders::config::publish_mode;
use reminders::config::ConfigError;
use reminders::config::PublishMode;
use reminders::config::SourcePlan;

#[test]
fn source_plan_decisions() {
    // No file configured: inline reminders or nothing.
    assert_eq!(plan_source(false, false, false, false, false, true), Ok(SourcePlan::InlineOnly));
    assert_eq!(
        plan_source(false, false, false, false, false, false),
        Err(ConfigError::InvalidConfig)
    );
    // A local file.
    assert_eq!(plan_source(true, false, false, false, false, false), Ok(SourcePlan::LocalFile));
    // A URL, with and without basic authentication.
    assert_eq!(plan_source(true, true, false, false, false, false), Ok(SourcePlan::HttpPlain));
    assert_eq!(plan_source(true, true, true, true, true, false), Ok(SourcePlan::HttpBasicAuth));
    assert_eq!(
        plan_source(true, true, true, true, false, false),
        Err(ConfigError::InvalidCredentials)
    );
    assert_eq!(
        plan_source(true, true, true, false, true, false),
        Err(ConfigError::InvalidCredentials)
    );
}

#[test]
fn publish_mode_falls_back_to_echo() {
    assert_eq!(publish_mode(true, true), PublishMode::Send);
    assert_eq!(publish_mode(true, false), PublishMode::Echo);
    assert_eq!(publish_mode(false, true), PublishMode::Echo);
    assert_eq!(publish_mode(false, false), PublishMode::Echo);
}

#[test]
fn http_url_detection() {
    assert!(is_http_url(b"http://example.test/todo.md"));
    assert!(is_http_url(b"https://example.test/todo.md"));
    assert!(!is_http_url(b"/home/user/todo.md"));
    assert!(!is_http_url(b"htt"));
}

#[test]
fn override_parses_exact_format() {
    let t = parse_override(b"2020/04/29 13:05").expect("valid override");
    assert_eq!(t, Instant { year: 2020, month: 4, day: 29, hour: 13, minute: 5 });
    // Single-digit month, day and hour are accepted.
    let t2 = parse_override(b"2024/3/5 8:00").expect("valid override");
    assert_eq!(t2, Instant { year: 2024, month: 3, day: 5, hour: 8, minute: 0 });
}

#[test]
fn override_rejects_malformed_text() {
    assert!(parse_override(b"").is_none());
    assert!(parse_override(b"20/04/29 13:05").is_none());
    assert!(parse_override(b"2020-04-29 13:05").is_none());
    assert!(parse_override(b"2020/04/29").is_none());
    assert!(parse_override(b"2020/04/29 13:05:00").is_none());
    assert!(parse_override(b"2020/04/29  13:05").is_none());
    assert!(parse_override(b"2020/04/29 13:05 ").is_none());
}

#[test]
fn override_rejects_invalid_dates_and_times() {
    assert!(parse_override(b"2023/02/29 08:00").is_none());
    assert!(parse_override(b"2024/02/29 08:00").is_some());
    assert!(parse_override(b"2024/00/10 08:00").is_none());
    assert!(parse_override(b"2024/13/10 08:00").is_none());
    assert!(parse_override(b"2024/04/31 08:00").is_none());
    assert!(parse_override(b"2024/04/30 24:00").is_none());
    assert!(parse_override(b"2024/04/30 23:60").is_none());
}
