use quest_log::auth::{
    encode, generate_session_token, get_password_hash_or_default, hash_password,
    session_duration_secs, verify_password, LoginRateLimiter, SessionStore,
};
use quest_log::errors::AppError;
use quest_log::session::{
    attempt_login, editor_session_token, extract_and_validate_session, find_cookie_value,
    get_client_ip, logout, session_token_from_cookie, split_chars, LoginOutcome, NANOS_PER_SEC,
};

const T0: u128 = 3_600_000_000_000;
const SECOND: u128 = 1_000_000_000;

#[test]
fn test_hash_and_verify_password() {
    let password = "test_password_123";
    let hash = hash_password(password).unwrap();
    assert!(verify_password(password, &hash));
    assert!(!verify_password("wrong_password", &hash));
}

#[test]
fn test_generate_session_token() {
    let token1 = generate_session_token();
    let token2 = generate_session_token();
    assert!(!token1.is_empty());
    assert!(!token2.is_empty());
    assert_ne!(token1, token2);
}

#[test]
fn session_token_ends_in_64_hex_digits() {
    let token = generate_session_token();
    let (_, hex) = token.rsplit_once('_').unwrap();
    assert_eq!(hex.len(), 64);
    assert!(hex.chars().all(|c| c.is_ascii_hexdigit() && !c.is_ascii_uppercase()));
}

#[test]
fn test_rate_limiter_allows_first_attempts() {
    let mut limiter = LoginRateLimiter::new();
    for i in 0..5u128 {
        assert!(!limiter.is_rate_limited("127.0.0.1", T0 + i));
    }
}

#[test]
fn test_rate_limiter_blocks_excess() {
    let mut limiter = LoginRateLimiter::new();
    for i in 0..5u128 {
        assert!(!limiter.is_rate_limited("127.0.0.1", T0 + i));
        limiter.record_failed_attempt("127.0.0.1", T0 + i);
    }
    assert!(limiter.is_rate_limited("127.0.0.1", T0 + 10));
}

#[test]
fn test_rate_limiter_different_ips() {
    let mut limiter = LoginRateLimiter::new();
    for i in 0..5u128 {
        assert!(!limiter.is_rate_limited("127.0.0.1", T0 + i));
        assert!(!limiter.is_rate_limited("192.168.1.1", T0 + i));
    }
}

#[test]
fn rate_limit_forgets_attempts_after_a_minute() {
    let mut limiter = LoginRateLimiter::new();
    for i in 0..5u128 {
        limiter.record_failed_attempt("10.0.0.1", T0 + i);
    }
    assert!(limiter.is_rate_limited("10.0.0.1", T0 + 30 * SECOND));
    assert!(!limiter.is_rate_limited("10.0.0.1", T0 + 61 * SECOND));
    limiter.record_failed_attempt("10.0.0.2", T0);
    limiter.clear_attempts("10.0.0.2");
    assert!(!limiter.is_rate_limited("10.0.0.2", T0));
}

#[test]
fn test_get_password_hash_or_default_dev() {
    let mut dev_hash = None;
    let hash = get_password_hash_or_default(None, &mut dev_hash).unwrap();
    assert!(!hash.is_empty());
    assert!(verify_password("dev", &hash));
    assert!(!verify_password("wrong", &hash));
}

#[test]
fn configured_password_hash_is_used_as_is() {
    let mut dev_hash = None;
    assert_eq!(get_password_hash_or_default(Some("stored".to_string()), &mut dev_hash).unwrap(), "stored");
    assert_eq!(dev_hash, None);
    assert!(!verify_password("dev", "not a phc string"));
}

#[test]
fn hex_encoding_of_bytes() {
    assert_eq!(encode(&[0x00, 0x0f, 0xa5, 0xff]), "000fa5ff");
    assert_eq!(encode(&[]), "");
}

#[test]
fn session_durations() {
    assert_eq!(session_duration_secs(None), 24 * 3600);
    assert_eq!(session_duration_secs(Some("48")), 48 * 3600);
    assert_eq!(session_duration_secs(Some("soon")), 24 * 3600);
    assert_eq!(session_duration_secs(Some("18446744073709551615")), u64::MAX);
}

#[test]
fn sessions_expire_and_can_be_closed() {
    let mut store = SessionStore::new();
    store.create_session("abc".to_string(), T0 + 10);
    assert!(store.validate_session("abc", T0 + 9));
    assert!(!store.validate_session("abc", T0 + 10));
    assert!(!store.validate_session("abc", T0));
    store.create_session("def".to_string(), T0 + 100);
    store.invalidate_session("def");
    assert!(!store.validate_session("def", T0));
}

#[test]
fn cookie_values_are_found_by_name() {
    assert_eq!(
        session_token_from_cookie("theme=dark; editor_session=tok123; x=1").as_deref(),
        Some("tok123")
    );
    assert_eq!(session_token_from_cookie("editor_session=").as_deref(), Some(""));
    assert_eq!(session_token_from_cookie("theme=dark"), None);
    assert_eq!(
        find_cookie_value("  QuestLog-TZ=Asia/Tokyo  ;a=b", "QuestLog-TZ=").as_deref(),
        Some("Asia/Tokyo")
    );
    let parts = split_chars("a;;b", ';');
    assert_eq!(parts.len(), 3);
    assert!(parts[1].is_empty());
}

#[test]
fn editor_page_token_prefers_header() {
    assert_eq!(
        editor_session_token(Some("h"), Some("editor_session=c")).as_deref(),
        Some("h")
    );
    assert_eq!(editor_session_token(None, Some("editor_session=c")).as_deref(), Some("c"));
    assert_eq!(editor_session_token(None, None), None);
}

#[test]
fn client_ip_from_proxy_headers() {
    assert_eq!(get_client_ip(Some("1.2.3.4, 5.6.7.8"), Some("9.9.9.9")), "1.2.3.4");
    assert_eq!(get_client_ip(None, Some("9.9.9.9")), "9.9.9.9");
    assert_eq!(get_client_ip(None, None), "unknown");
}

#[test]
fn requests_without_valid_session_are_refused() {
    let mut store = SessionStore::new();
    store.create_session("good".to_string(), T0 + 100);
    let auth = |r: Result<String, AppError>| match r {
        Err(AppError::Authentication(m)) => m,
        other => panic!("unexpected {other:?}"),
    };
    assert_eq!(auth(extract_and_validate_session(None, &mut store, T0)), "No session cookie found");
    assert_eq!(
        auth(extract_and_validate_session(Some("a=b"), &mut store, T0)),
        "No session token in cookie"
    );
    assert_eq!(
        auth(extract_and_validate_session(Some("editor_session=bad"), &mut store, T0)),
        "Invalid session"
    );
    assert_eq!(
        extract_and_validate_session(Some("editor_session=good"), &mut store, T0).unwrap(),
        "good"
    );
}

#[test]
fn login_opens_a_session_and_logout_closes_it() {
    let hash = hash_password("secret").unwrap();
    let mut limiter = LoginRateLimiter::new();
    let mut store = SessionStore::new();
    let outcome = attempt_login(&mut limiter, &mut store, "ip", "wrong", &hash, T0, 3600);
    assert!(matches!(outcome, LoginOutcome::InvalidPassword));
    assert_eq!(outcome.error_message(), Some("Invalid password. Please try again."));
    let outcome = attempt_login(&mut limiter, &mut store, "ip", "secret", &hash, T0 + 1, 3600);
    let token = match outcome {
        LoginOutcome::LoggedIn(t) => t,
        _ => panic!("login failed"),
    };
    let cookie = format!("editor_session={token}");
    assert!(extract_and_validate_session(Some(&cookie), &mut store, T0 + 2).is_ok());
    assert!(extract_and_validate_session(Some(&cookie), &mut store, T0 + 1 + 3600 * NANOS_PER_SEC).is_err());
    let outcome = attempt_login(&mut limiter, &mut store, "ip", "secret", &hash, T0 + 5, 3600);
    let token = match outcome {
        LoginOutcome::LoggedIn(t) => t,
        _ => panic!("login failed"),
    };
    let cookie = format!("editor_session={token}");
    logout(Some(&cookie), &mut store, T0 + 6);
    assert!(extract_and_validate_session(Some(&cookie), &mut store, T0 + 7).is_err());
}

#[test]
fn login_is_refused_after_five_failures() {
    let hash = hash_password("secret").unwrap();
    let mut limiter = LoginRateLimiter::new();
    let mut store = SessionStore::new();
    for i in 0..5u128 {
        let outcome = attempt_login(&mut limiter, &mut store, "ip", "nope", &hash, T0 + i, 60);
        assert!(matches!(outcome, LoginOutcome::InvalidPassword));
    }
    let outcome = attempt_login(&mut limiter, &mut store, "ip", "secret", &hash, T0 + 10, 60);
    assert!(matches!(outcome, LoginOutcome::RateLimited));
    assert_eq!(
        outcome.error_message(),
        Some("Too many login attempts. Please wait a minute.")
    );
    let other = attempt_login(&mut limiter, &mut store, "other", "secret", &hash, T0 + 10, 60);
    assert!(matches!(other, LoginOutcome::LoggedIn(_)));
}

#[test]
fn session_token_salt_is_22_base64_characters() {
    let token = generate_session_token();
    let (salt, _) = token.rsplit_once('_').unwrap();
    assert_eq!(salt.len(), 22);
    assert!(salt.chars().all(|c| c.is_ascii_alphanumeric() || c == '+' || c == '/'));
    assert_eq!(token.len(), 22 + 1 + 64);
}

#[test]
fn default_hash_accepts_dev_only() {
    let mut dev_hash = None;
    let hash = get_password_hash_or_default(None, &mut dev_hash).unwrap();
    assert!(hash.starts_with("$argon2id$v=19$m=19456,t=2,p=1$"));
    assert_eq!(get_password_hash_or_default(None, &mut dev_hash).unwrap(), hash);
    assert_eq!(dev_hash.as_deref(), Some(hash.as_str()));
    assert!(!hash.is_empty());
    assert!(quest_log::auth::verify_password("dev", &hash));
    assert!(!quest_log::auth::verify_password("wrong", &hash));
}
