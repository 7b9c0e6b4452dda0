use quest_log::config::listen_fd_list;
use quest_log::config::{
    check_data_dir, editor_session_duration_hours, port, test_endpoints_enabled, ConfigError,
};
use quest_log::timezone::Timezone;

#[test]
fn test_default_port() {
    assert_eq!(port(None).unwrap(), 3000);
}

#[test]
fn test_custom_port() {
    assert_eq!(port(Some("8080")).unwrap(), 8080);
}

#[test]
fn test_invalid_port() {
    assert!(port(Some("not-a-port")).is_err());
}

#[test]
fn port_errors_carry_the_value() {
    match port(Some("70000")) {
        Err(e @ ConfigError::InvalidPort(_)) => assert_eq!(e.to_text(), "invalid port: 70000"),
        other => panic!("unexpected {other:?}"),
    }
    assert_eq!(port(Some("+80")).unwrap(), 80);
    assert!(port(Some("")).is_err());
}

#[test]
fn test_default_session_duration() {
    assert_eq!(editor_session_duration_hours(None), 24);
}

#[test]
fn test_custom_session_duration() {
    assert_eq!(editor_session_duration_hours(Some("48")), 48);
}

#[test]
fn unreadable_session_duration_falls_back() {
    assert_eq!(editor_session_duration_hours(Some("-3")), 24);
}

#[test]
fn data_dir_must_be_absolute() {
    assert_eq!(check_data_dir("/var/lib/quests", "/home").unwrap(), "/var/lib/quests");
    let err = check_data_dir("relative/path", "/home/me").unwrap_err();
    let text = err.to_text();
    assert!(text.contains("must be an absolute path"));
    assert_eq!(
        text,
        "QUEST_LOG_DATA_DIR must be an absolute path, got: relative/path. CWD would be: /home/me"
    );
}

#[test]
fn test_endpoints_need_one() {
    assert!(test_endpoints_enabled(Some("1")));
    assert!(!test_endpoints_enabled(Some("true")));
    assert!(!test_endpoints_enabled(None));
}

#[test]
fn test_timezone_from_header() {
    let tz = Timezone::from_headers(Some("America/New_York"), None);
    assert_eq!(tz.0, Some("America/New_York".to_string()));
}

#[test]
fn test_timezone_from_cookie_fallback() {
    let tz = Timezone::from_headers(None, Some("QuestLog-TZ=Asia/Tokyo"));
    assert_eq!(tz.0, Some("Asia/Tokyo".to_string()));
}

#[test]
fn test_timezone_header_takes_precedence() {
    let tz = Timezone::from_headers(Some("Europe/London"), Some("QuestLog-TZ=America/New_York"));
    assert_eq!(tz.0, Some("Europe/London".to_string()));
}

#[test]
fn test_timezone_none_when_missing() {
    let tz = Timezone::from_headers(None, None);
    assert_eq!(tz.0, None);
}

#[test]
fn test_timezone_empty_header_ignored() {
    let tz = Timezone::from_headers(Some(""), Some("QuestLog-TZ=Asia/Tokyo"));
    assert_eq!(tz.0, Some("Asia/Tokyo".to_string()));
}

#[test]
fn empty_timezone_cookie_is_ignored() {
    let tz = Timezone::from_headers(None, Some("a=1; QuestLog-TZ="));
    assert_eq!(tz.0, None);
    assert_eq!(Timezone::from_name("UTC").as_deref(), Some("UTC"));
}

#[test]
fn test_is_valid_with_valid_timezone() {
    let tz = Timezone(Some("America/New_York".to_string()));
    assert!(tz.is_valid());
}

#[test]
fn test_is_valid_with_invalid_timezone() {
    let tz = Timezone(Some("Invalid/Timezone".to_string()));
    assert!(!tz.is_valid());
}

#[test]
fn test_is_valid_with_none() {
    let tz = Timezone(None);
    assert!(tz.is_valid());
}

#[test]
fn test_to_chrono_tz_valid() {
    let tz = Timezone(Some("America/New_York".to_string()));
    assert!(tz.to_chrono_tz().is_some());
}

#[test]
fn test_to_chrono_tz_invalid() {
    let tz = Timezone(Some("Invalid/Timezone".to_string()));
    assert!(tz.to_chrono_tz().is_none());
}

#[test]
fn test_to_chrono_tz_none() {
    let tz = Timezone(None);
    assert!(tz.to_chrono_tz().is_none());
}

#[test]
fn listen_fds_for_this_process() {
    assert_eq!(listen_fd_list(Some("2"), Some("42"), 42), Some(vec![3, 4]));
    assert_eq!(listen_fd_list(Some("1"), Some("+42"), 42), Some(vec![3]));
}

#[test]
fn listen_fds_ignored_when_not_ours_or_invalid() {
    assert_eq!(listen_fd_list(Some("2"), Some("41"), 42), Some(vec![]));
    assert_eq!(listen_fd_list(None, Some("42"), 42), Some(vec![]));
    assert_eq!(listen_fd_list(Some("2"), None, 42), Some(vec![]));
    assert_eq!(listen_fd_list(Some("0"), Some("42"), 42), Some(vec![]));
    assert_eq!(listen_fd_list(Some("-3"), Some("42"), 42), Some(vec![]));
    assert_eq!(listen_fd_list(Some("two"), Some("42"), 42), Some(vec![]));
    assert_eq!(listen_fd_list(Some("2"), Some("pid"), 42), Some(vec![]));
}

#[test]
fn listen_fds_overflowing_count_is_refused() {
    assert_eq!(listen_fd_list(Some("2147483647"), Some("42"), 42), None);
}
