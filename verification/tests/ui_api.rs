use veloren::ui_api::{
    logs, players, ApiError, ClientAddr, IpAddresses, Message, MessageReturn, UiApiToken,
    X_SECRET_TOKEN,
};

#[test]
fn status_codes() {
    assert_eq!(ApiError::Unauthorized.status_code(), 401);
    assert_eq!(ApiError::InternalServerError.status_code(), 500);
}

#[test]
fn session_cookie_is_admitted() {
    let token = UiApiToken::new("s3cr3t".to_string());
    assert_eq!(token.validate_secret(Some(b"X-Secret-Token=s3cr3t")), Ok(()));
}

#[test]
fn missing_cookie_is_refused() {
    let token = UiApiToken::new("s3cr3t".to_string());
    assert_eq!(token.validate_secret(None), Err(ApiError::Unauthorized));
}

#[test]
fn wrong_cookie_is_refused() {
    let token = UiApiToken::new("s3cr3t".to_string());
    for cookie in [
        &b"X-Secret-Token=s3cr3"[..],
        b"X-Secret-Token=s3cr3tt",
        b"X-Secret-Token=S3CR3T",
        b"x-secret-token=s3cr3t",
        b"X-Secret-Token= s3cr3t",
        b"s3cr3t",
        b"",
    ] {
        assert_eq!(token.validate_secret(Some(cookie)), Err(ApiError::Unauthorized));
    }
}

#[test]
fn cookie_of_one_token_refused_for_another() {
    let a = UiApiToken::new("alpha".to_string());
    let b = UiApiToken::new("beta".to_string());
    assert_eq!(a.validate_secret(Some(b"X-Secret-Token=beta")), Err(ApiError::Unauthorized));
    assert_eq!(b.validate_secret(Some(b"X-Secret-Token=beta")), Ok(()));
}

#[test]
fn non_ascii_token_compares_utf8_bytes() {
    let token = UiApiToken::new("pässwört".to_string());
    let cookie = format!("{X_SECRET_TOKEN}=pässwört");
    assert_eq!(token.validate_secret(Some(cookie.as_bytes())), Ok(()));
    assert_eq!(token.validate_secret(Some(b"X-Secret-Token=passwort")), Err(ApiError::Unauthorized));
}

#[test]
fn empty_token_needs_bare_cookie_name() {
    let token = UiApiToken::new(String::new());
    assert_eq!(token.validate_secret(Some(b"X-Secret-Token=")), Ok(()));
    assert_eq!(token.validate_secret(Some(b"X-Secret-Token")), Err(ApiError::Unauthorized));
}

#[test]
fn first_visit_logged_with_count() {
    let mut seen = IpAddresses::new();
    assert_eq!(seen.record(ClientAddr::V4(0x7f00_0001)), Some(1));
    assert_eq!(seen.record(ClientAddr::V4(0x0a00_0001)), Some(2));
    assert_eq!(seen.record(ClientAddr::V6(1)), Some(3));
}

#[test]
fn repeat_visit_not_logged() {
    let mut seen = IpAddresses::new();
    assert_eq!(seen.record(ClientAddr::V6(42)), Some(1));
    assert_eq!(seen.record(ClientAddr::V6(42)), None);
    assert_eq!(seen.record(ClientAddr::V6(42)), None);
    assert!(seen.contains(ClientAddr::V6(42)));
}

#[test]
fn v4_and_v6_with_same_number_are_distinct() {
    let mut seen = IpAddresses::new();
    assert_eq!(seen.record(ClientAddr::V4(1)), Some(1));
    assert!(!seen.contains(ClientAddr::V6(1)));
    assert_eq!(seen.record(ClientAddr::V6(1)), Some(2));
}

#[test]
fn players_answers_player_list() {
    let list = vec!["alice".to_string(), "bob".to_string()];
    assert_eq!(players(Some(MessageReturn::Players(list.clone()))), Ok(list));
}

#[test]
fn players_refuses_other_reply() {
    assert_eq!(
        players(Some(MessageReturn::Logs(vec!["line".to_string()]))),
        Err(ApiError::InternalServerError)
    );
    assert_eq!(players(None), Err(ApiError::InternalServerError));
}

#[test]
fn logs_answers_log_lines() {
    let lines = vec!["started".to_string()];
    assert_eq!(logs(Some(MessageReturn::Logs(lines.clone()))), Ok(lines));
}

#[test]
fn logs_refuses_other_reply() {
    assert_eq!(logs(Some(MessageReturn::Players(vec![]))), Err(ApiError::InternalServerError));
    assert_eq!(logs(None), Err(ApiError::InternalServerError));
}

#[test]
fn requests_are_distinct() {
    assert_ne!(Message::ListPlayers, Message::ListLogs);
}
