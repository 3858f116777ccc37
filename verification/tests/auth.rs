use troyonthetrails::auth::{
    check_account, code_grant, refresh_grant, Athlete, AuthError, StravaTokenResponse, TokenData,
    TokenManager, TokenStep, CODE_TOKEN_URL, REFRESH_TOKEN_URL,
};
use troyonthetrails::http::ErrorKind;

const NOW: u64 = 1_700_000_000;

fn token(expires_at: u64, tag: &str) -> TokenData {
    TokenData {
        expires_at,
        access_token: format!("access-{}", tag),
        refresh_token: format!("refresh-{}", tag),
    }
}

fn response(expires_at: u64, tag: &str, athlete: Option<u64>) -> StravaTokenResponse {
    StravaTokenResponse {
        token_type: "Bearer".to_string(),
        expires_at,
        expires_in: 21600,
        refresh_token: format!("refresh-{}", tag),
        access_token: format!("access-{}", tag),
        athlete: athlete.map(|id| Athlete { id }),
    }
}

fn same(a: &TokenData, b: &TokenData) -> bool {
    a.expires_at == b.expires_at
        && a.access_token == b.access_token
        && a.refresh_token == b.refresh_token
}

#[test]
fn an_expired_token_is_refreshed_once_and_then_reused() {
    let mut manager = TokenManager::new();
    assert!(manager.load(Some(token(NOW + 5, "old")), NOW).is_ok());
    let later = NOW + 10;
    let mut refreshes = 0;
    let first = match manager.get_token(later) {
        TokenStep::Refresh(refresh_token) => {
            assert_eq!(refresh_token, "refresh-old");
            refreshes += 1;
            manager.get_token_from_refresh(Ok(response(later + 3600, "new", None))).unwrap()
        }
        other => panic!("expected a refresh, got {:?}", other),
    };
    assert!(first.expires_at > later);
    assert!(same(&first, &token(later + 3600, "new")));
    match manager.get_token(later) {
        TokenStep::Ready(second) => assert!(same(&second, &first)),
        other => panic!("expected the cached token, got {:?}", other),
    }
    assert_eq!(refreshes, 1);
}

#[test]
fn a_token_serves_while_its_expiry_lies_in_the_future() {
    let mut manager = TokenManager::new();
    assert!(matches!(manager.load(Some(token(NOW, "t")), NOW - 1), Ok(TokenStep::Ready(_))));
    assert!(matches!(manager.get_token(NOW - 1), TokenStep::Ready(_)));
    assert!(matches!(manager.get_token(NOW), TokenStep::Refresh(_)));
    assert!(matches!(manager.get_token(NOW + 1), TokenStep::Refresh(_)));
}

#[test]
fn nothing_cached_means_load_and_a_stored_token_that_serves_is_handed_out() {
    let mut manager = TokenManager::new();
    assert!(!manager.has_token());
    assert!(matches!(manager.get_token(NOW), TokenStep::Load));
    match manager.load(Some(token(NOW + 100, "fresh")), NOW) {
        Ok(TokenStep::Ready(loaded)) => assert!(same(&loaded, &token(NOW + 100, "fresh"))),
        other => panic!("expected the stored token, got {:?}", other),
    }
    assert!(manager.has_token());
    assert!(matches!(manager.get_token(NOW), TokenStep::Ready(_)));
}

#[test]
fn a_stored_token_that_has_expired_is_refreshed_before_it_is_handed_out() {
    let mut manager = TokenManager::new();
    assert!(matches!(manager.get_token(NOW), TokenStep::Load));
    match manager.load(Some(token(NOW - 100, "stale")), NOW) {
        Ok(TokenStep::Refresh(refresh_token)) => assert_eq!(refresh_token, "refresh-stale"),
        other => panic!("expected a refresh, got {:?}", other),
    }
    assert!(manager.has_token());
    match manager.load(Some(token(NOW, "edge")), NOW) {
        Ok(TokenStep::Refresh(refresh_token)) => assert_eq!(refresh_token, "refresh-edge"),
        other => panic!("expected a refresh, got {:?}", other),
    }
    let granted = manager.get_token_from_refresh(Ok(response(NOW + 60, "new", None))).unwrap();
    assert!(same(&granted, &token(NOW + 60, "new")));
    match manager.get_token(NOW) {
        TokenStep::Ready(cached) => assert!(same(&cached, &granted)),
        other => panic!("expected the cached token, got {:?}", other),
    }
}

#[test]
fn an_empty_store_is_an_error_and_leaves_the_cache() {
    let mut manager = TokenManager::new();
    assert_eq!(manager.load(None, NOW).unwrap_err(), AuthError::NoStoredToken);
    assert!(!manager.has_token());
    manager.load(Some(token(NOW + 5, "kept")), NOW).unwrap();
    assert_eq!(manager.load(None, NOW).unwrap_err(), AuthError::NoStoredToken);
    assert!(matches!(manager.get_token(NOW), TokenStep::Ready(_)));
}

#[test]
fn a_failed_refresh_keeps_the_old_token_for_the_next_attempt() {
    let mut manager = TokenManager::new();
    manager.load(Some(token(NOW - 1, "old")), NOW).unwrap();
    for kind in [
        ErrorKind::TransientNetwork,
        ErrorKind::Status(401),
        ErrorKind::Deserialization,
        ErrorKind::RetriesExceeded,
    ] {
        assert_eq!(
            manager.get_token_from_refresh(Err(kind)).unwrap_err(),
            AuthError::Grant(kind)
        );
        match manager.get_token(NOW) {
            TokenStep::Refresh(refresh_token) => assert_eq!(refresh_token, "refresh-old"),
            other => panic!("expected a refresh, got {:?}", other),
        }
    }
}

#[test]
fn a_code_grant_for_the_expected_account_is_cached() {
    let mut manager = TokenManager::new();
    let granted = manager
        .get_token_from_code(Ok(response(NOW + 10, "c", Some(4242))), Some("4242"))
        .unwrap();
    assert!(same(&granted, &token(NOW + 10, "c")));
    assert!(matches!(manager.get_token(NOW), TokenStep::Ready(_)));
}

#[test]
fn a_code_grant_for_another_account_is_refused() {
    let mut manager = TokenManager::new();
    assert_eq!(
        manager
            .get_token_from_code(Ok(response(NOW + 10, "c", Some(4242))), Some("4243"))
            .unwrap_err(),
        AuthError::UserMismatch
    );
    assert_eq!(
        manager
            .get_token_from_code(Ok(response(NOW + 10, "c", Some(4242))), Some("04242"))
            .unwrap_err(),
        AuthError::UserMismatch
    );
    assert_eq!(
        manager
            .get_token_from_code(Ok(response(NOW + 10, "c", Some(4242))), None)
            .unwrap_err(),
        AuthError::NoExpectedUser
    );
    assert!(!manager.has_token());
}

#[test]
fn a_code_grant_without_an_account_passes_and_a_failed_one_is_reported() {
    let mut manager = TokenManager::new();
    assert!(manager.get_token_from_code(Ok(response(NOW, "c", None)), None).is_ok());
    assert_eq!(
        manager.get_token_from_code(Err(ErrorKind::Status(400)), Some("1")).unwrap_err(),
        AuthError::Grant(ErrorKind::Status(400))
    );
    assert!(manager.has_token());
}

#[test]
fn account_ids_are_compared_in_decimal() {
    assert_eq!(check_account(None, None), Ok(()));
    assert_eq!(check_account(None, Some("7")), Ok(()));
    assert_eq!(check_account(Some(Athlete { id: 0 }), Some("0")), Ok(()));
    assert_eq!(
        check_account(Some(Athlete { id: u64::MAX }), Some("18446744073709551615")),
        Ok(())
    );
    assert_eq!(
        check_account(Some(Athlete { id: 10 }), Some("1")),
        Err(AuthError::UserMismatch)
    );
    assert_eq!(
        check_account(Some(Athlete { id: 10 }), Some("")),
        Err(AuthError::UserMismatch)
    );
}

#[test]
fn a_token_response_keeps_its_three_fields() {
    let converted = TokenData::from(response(99, "x", Some(1)));
    assert!(same(&converted, &token(99, "x")));
    let copy = converted.clone();
    assert!(same(&copy, &converted));
}

#[test]
fn grants_name_the_client_and_what_is_presented() {
    let pair = |k: &str, v: &str| (k.to_string(), v.to_string());
    assert_eq!(
        code_grant("id", "secret", "abc"),
        vec![
            pair("client_id", "id"),
            pair("client_secret", "secret"),
            pair("code", "abc"),
            pair("grant_type", "authorization_code"),
        ]
    );
    assert_eq!(
        refresh_grant("id", "secret", "r1"),
        vec![
            pair("client_id", "id"),
            pair("client_secret", "secret"),
            pair("refresh_token", "r1"),
            pair("grant_type", "refresh_token"),
        ]
    );
    assert_eq!(CODE_TOKEN_URL, "https://www.strava.com/api/v3/oauth/token");
    assert_eq!(REFRESH_TOKEN_URL, "https://www.strava.com/oauth/token");
}
