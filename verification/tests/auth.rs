use gale_sync::auth::token::{
    create, create_at, verify, verify_at, verify_with, JwtClaims, JwtUser, EXPIRATION_TIME,
};
use gale_sync::auth::{
    bearer_token, check_oauth_state, check_owner, token_request_error, DiscordUser, User,
};
use gale_sync::error::AppError;

fn user() -> User {
    User {
        id: 7,
        discord_id: "1234".to_string(),
        name: "kes".to_string(),
        display_name: "Kes".to_string(),
        avatar: "a.png".to_string(),
    }
}

fn jwt_user() -> JwtUser {
    JwtUser {
        id: 7,
        discord_id: "1234".to_string(),
        name: "kes".to_string(),
        display_name: "Kes".to_string(),
        avatar: "a.png".to_string(),
    }
}

fn unauthorized(reason: &str) -> AppError {
    AppError::Unauthorized { reason: Some(reason.to_string()) }
}

fn bad_request(reason: &str) -> AppError {
    AppError::BadRequest { reason: Some(reason.to_string()) }
}

#[test]
fn users_convert_both_ways() {
    assert_eq!(JwtUser::from(user()), jwt_user());
    assert_eq!(User::from(jwt_user()), user());
    assert_eq!(user().clone(), user());
}

#[test]
fn display_name_prefers_the_global_name() {
    let mut discord = DiscordUser {
        id: "1".to_string(),
        username: "kes".to_string(),
        avatar: None,
        global_name: Some("Kes".to_string()),
    };
    assert_eq!(discord.display_name(), "Kes");
    discord.global_name = None;
    assert_eq!(discord.display_name(), "kes");
}

#[test]
fn bearer_token_is_what_follows_the_scheme() {
    assert_eq!(bearer_token(Some("Bearer abc.def")), Ok("abc.def".to_string()));
    assert_eq!(bearer_token(Some("Bearer ")), Ok(String::new()));
}

#[test]
fn bearer_token_needs_the_header() {
    assert_eq!(bearer_token(None), Err(unauthorized("Authorization header is missing.")));
}

#[test]
fn bearer_token_needs_the_scheme() {
    for header in ["Basic abc", "bearer abc", "Bearer", "", "Bearerabc"] {
        assert_eq!(
            bearer_token(Some(header)),
            Err(bad_request("Authorization header must use the Bearer scheme."))
        );
    }
}

#[test]
fn oauth_state_must_match_the_cookie() {
    assert_eq!(check_oauth_state(Some("s1"), "s1"), Ok(()));
    assert_eq!(
        check_oauth_state(None, "s1"),
        Err(bad_request("OAuth state cookie is missing."))
    );
    assert_eq!(
        check_oauth_state(Some("s2"), "s1"),
        Err(bad_request("OAuth state parameter is invalid."))
    );
}

#[test]
fn token_request_error_tells_a_bad_refresh_token() {
    assert_eq!(token_request_error(Some(400)), bad_request("Invalid refresh token."));
    assert_eq!(token_request_error(Some(401)), AppError::Internal);
    assert_eq!(token_request_error(Some(500)), AppError::Internal);
    assert_eq!(token_request_error(None), AppError::Internal);
}

#[test]
fn only_the_owner_may_change_a_profile() {
    assert_eq!(check_owner(7, &user()), Ok(()));
    assert_eq!(check_owner(8, &user()), Err(AppError::Forbidden));
}

#[test]
fn claims_end_thirty_minutes_after_issue() {
    assert_eq!(EXPIRATION_TIME, 30 * 60);
    assert_eq!(
        create_at(jwt_user(), 1_700_000_000),
        Some(JwtClaims { expiration: 1_700_001_800, user: jwt_user() })
    );
    assert_eq!(
        create_at(jwt_user(), i64::MAX - 1800),
        Some(JwtClaims { expiration: i64::MAX, user: jwt_user() })
    );
    assert_eq!(create_at(jwt_user(), i64::MAX - 1799), None);
}

#[test]
fn claims_issued_now_are_valid_now() {
    let claims = create(jwt_user()).unwrap();
    assert_eq!(claims.user, jwt_user());
    assert!(claims.expiration > 1_700_000_000);
    let expiration = claims.expiration;
    assert_eq!(verify(claims), Ok(JwtClaims { expiration, user: jwt_user() }));
}

#[test]
fn claims_of_the_past_are_expired_now() {
    let claims = JwtClaims { expiration: 1_000_000_000, user: jwt_user() };
    assert_eq!(verify(claims), Err(unauthorized("Token is expired.")));
}

#[test]
fn claims_are_valid_until_their_last_second() {
    let claims = || JwtClaims { expiration: 1000, user: jwt_user() };
    assert_eq!(verify_at(claims(), 999), Ok(claims()));
    assert_eq!(verify_at(claims(), 1000), Err(unauthorized("Token is expired.")));
    assert_eq!(verify_at(claims(), 1001), Err(unauthorized("Token is expired.")));
}

#[test]
fn claims_with_an_impossible_expiration_are_invalid() {
    let claims = JwtClaims { expiration: i64::MAX, user: jwt_user() };
    assert_eq!(
        verify_at(claims, 0),
        Err(unauthorized("Token expiration time is invalid."))
    );
    let claims = JwtClaims { expiration: i64::MIN, user: jwt_user() };
    assert_eq!(
        verify_at(claims, i64::MIN),
        Err(unauthorized("Token expiration time is invalid."))
    );
}

#[test]
fn verdict_checks_the_date_before_the_clock() {
    let claims = || JwtClaims { expiration: 1000, user: jwt_user() };
    assert_eq!(
        verify_with(claims(), false, 0),
        Err(unauthorized("Token expiration time is invalid."))
    );
    assert_eq!(verify_with(claims(), true, 0), Ok(claims()));
    assert_eq!(verify_with(claims(), true, 1000), Err(unauthorized("Token is expired.")));
}
