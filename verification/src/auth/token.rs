//! The claims of an access token and their lifetime.

use crate::auth::User;
use crate::error::{AppError, AppErrorView};
use vstd::prelude::*;
use vstd::string::StringExecFns;

verus! {

/// Seconds for which a token is valid: thirty minutes.
pub const EXPIRATION_TIME: i64 = 1800;

/// The user as a token names it.
#[derive(Debug, PartialEq, Eq)]
pub struct JwtUser {
    pub id: i32,
    pub discord_id: String,
    pub name: String,
    pub display_name: String,
    pub avatar: String,
}

/// What a token claims: a user, and the second at which the claim ends.
#[derive(Debug, PartialEq, Eq)]
pub struct JwtClaims {
    pub expiration: i64,
    pub user: JwtUser,
}

impl From<JwtUser> for User {
    fn from(value: JwtUser) -> (user: User) {
        User {
            id: value.id,
            discord_id: value.discord_id,
            name: value.name,
            display_name: value.display_name,
            avatar: value.avatar,
        }
    }
}

impl vstd::std_specs::convert::FromSpecImpl<JwtUser> for User {
    open spec fn obeys_from_spec() -> bool {
        true
    }

    open spec fn from_spec(value: JwtUser) -> User {
        User {
            id: value.id,
            discord_id: value.discord_id,
            name: value.name,
            display_name: value.display_name,
            avatar: value.avatar,
        }
    }
}

impl From<User> for JwtUser {
    fn from(value: User) -> (user: JwtUser) {
        JwtUser {
            id: value.id,
            discord_id: value.discord_id,
            name: value.name,
            display_name: value.display_name,
            avatar: value.avatar,
        }
    }
}

impl vstd::std_specs::convert::FromSpecImpl<User> for JwtUser {
    open spec fn obeys_from_spec() -> bool {
        true
    }

    open spec fn from_spec(value: User) -> JwtUser {
        JwtUser {
            id: value.id,
            discord_id: value.discord_id,
            name: value.name,
            display_name: value.display_name,
            avatar: value.avatar,
        }
    }
}

/// Whether `chrono` can hold the second `secs` after the epoch as a date
/// and time.
pub uninterp spec fn chrono_has_timestamp(secs: i64) -> bool;

/// Calls `chrono::DateTime::from_timestamp` with no nanoseconds.
///
/// Trusted: the result says whether the call returned a date and time.
#[verifier::external_body]
fn timestamp_exists(secs: i64) -> (exists: bool)
    ensures
        exists == chrono_has_timestamp(secs),
{
    chrono::DateTime::from_timestamp(secs, 0).is_some()
}

/// A second that `DateTime::timestamp` can return: it computes
/// `(days - 719_163) * 86_400 + seconds`, with the days an `i32` and the
/// seconds a `u32`.
pub open spec fn clock_second(now: i64) -> bool {
    (i32::MIN - 719_163) * 86_400 <= now <= (i32::MAX - 719_163) * 86_400 + u32::MAX
}

/// Calls `chrono::Utc::now` and `DateTime::timestamp`: the current second.
///
/// Trusted: the result lies in the range that `timestamp` can compute (see
/// [`clock_second`]). Which second it is depends on the clock.
#[verifier::external_body]
fn unix_now() -> (now: i64)
    ensures
        clock_second(now),
{
    chrono::Utc::now().timestamp()
}

/// The claims for `user` when issued at the second `now`: they end
/// [`EXPIRATION_TIME`] seconds later, where that is a second at all.
pub open spec fn claims_at(user: JwtUser, now: i64) -> Option<JwtClaims> {
    if now + EXPIRATION_TIME <= i64::MAX {
        Some(JwtClaims { expiration: (now + EXPIRATION_TIME) as i64, user })
    } else {
        None
    }
}

/// The claims for `user` when issued at the second `now`. `None` exactly
/// when the end of the claim cannot be written as a second.
pub fn create_at(user: JwtUser, now: i64) -> (claims: Option<JwtClaims>)
    ensures
        claims == claims_at(user, now),
{
    match now.checked_add(EXPIRATION_TIME) {
        Some(expiration) => Some(JwtClaims { expiration, user }),
        None => None,
    }
}

/// The claims for `user` when issued now: those of some second that the
/// clock can show. The clock cannot come near the last second, so there
/// are always claims.
pub fn create(user: JwtUser) -> (claims: Option<JwtClaims>)
    ensures
        claims is Some,
        exists|now: i64| clock_second(now) && claims == #[trigger] claims_at(user, now),
{
    let now = unix_now();
    let claims = create_at(user, now);
    assert(claims == claims_at(user, now));
    claims
}

/// What the claims of a token with a good signature are worth at the second
/// `now`: nothing when the expiration cannot be a date (`exists` is false)
/// or is not in the future.
pub open spec fn verdict(claims: JwtClaims, exists: bool, now: i64) -> Result<JwtClaims, AppErrorView> {
    if !exists {
        Err(AppErrorView::Unauthorized { reason: Some("Token expiration time is invalid."@) })
    } else if now < claims.expiration {
        Ok(claims)
    } else {
        Err(AppErrorView::Unauthorized { reason: Some("Token is expired."@) })
    }
}

pub open spec fn claims_result_view(result: Result<JwtClaims, AppError>) -> Result<
    JwtClaims,
    AppErrorView,
> {
    match result {
        Ok(claims) => Ok(claims),
        Err(err) => Err(err@),
    }
}

/// Judges claims given whether their expiration can be a date and the
/// current second. See [`verdict`].
pub fn verify_with(claims: JwtClaims, exists: bool, now: i64) -> (result: Result<JwtClaims, AppError>)
    ensures
        claims_result_view(result) == verdict(claims, exists, now),
{
    if !exists {
        Err(AppError::unauthorized(String::from_str("Token expiration time is invalid.")))
    } else if now < claims.expiration {
        Ok(claims)
    } else {
        Err(AppError::unauthorized(String::from_str("Token is expired.")))
    }
}

/// Judges claims at the second `now`.
pub fn verify_at(claims: JwtClaims, now: i64) -> (result: Result<JwtClaims, AppError>)
    ensures
        claims_result_view(result) == verdict(claims, chrono_has_timestamp(claims.expiration), now),
{
    let exists = timestamp_exists(claims.expiration);
    verify_with(claims, exists, now)
}

/// Judges claims now: they are worth what they are worth at some second.
pub fn verify(claims: JwtClaims) -> (result: Result<JwtClaims, AppError>)
    ensures
        exists|now: i64|
            claims_result_view(result) == #[trigger] verdict(
                claims,
                chrono_has_timestamp(claims.expiration),
                now,
            ),
{
    verify_at(claims, unix_now())
}

} // verus!
