//! Who is calling: users, the `Authorization` header and the OAuth state
//! check.

use crate::error::{AppError, AppErrorView};
use crate::text::{chars_of, same_text, string_of};
use vstd::prelude::*;
use vstd::string::StringExecFns;

pub mod token;

verus! {

/// A user of the service.
#[derive(Debug, PartialEq, Eq)]
pub struct User {
    /// The database key; never shown to clients.
    pub id: i32,
    pub discord_id: String,
    pub name: String,
    pub display_name: String,
    pub avatar: String,
}

impl Clone for User {
    fn clone(&self) -> (copy: User)
        ensures
            copy == *self,
    {
        User {
            id: self.id,
            discord_id: self.discord_id.clone(),
            name: self.name.clone(),
            display_name: self.display_name.clone(),
            avatar: self.avatar.clone(),
        }
    }
}

/// The user that a verified token names.
#[derive(Debug, PartialEq, Eq)]
pub struct AuthUser(pub User);

/// A user as Discord describes it.
#[derive(Debug, PartialEq, Eq)]
pub struct DiscordUser {
    pub id: String,
    pub username: String,
    pub avatar: Option<String>,
    pub global_name: Option<String>,
}

impl DiscordUser {
    /// The name to show: the global name, or the user name where there is
    /// none.
    pub fn display_name(&self) -> (name: &str)
        ensures
            name@ == match self.global_name {
                Some(global) => global@,
                None => self.username@,
            },
    {
        match &self.global_name {
            Some(global) => global.as_str(),
            None => self.username.as_str(),
        }
    }
}

/// What the `Authorization` header grants: the token after `Bearer `.
pub open spec fn bearer_of(header: Option<Seq<char>>) -> Result<Seq<char>, AppErrorView> {
    match header {
        None => Err(
            AppErrorView::Unauthorized { reason: Some("Authorization header is missing."@) },
        ),
        Some(value) => if value.len() >= 7 && value.subrange(0, 7) == "Bearer "@ {
            Ok(value.subrange(7, value.len() as int))
        } else {
            Err(
                AppErrorView::BadRequest {
                    reason: Some("Authorization header must use the Bearer scheme."@),
                },
            )
        },
    }
}

pub open spec fn header_view(header: Option<&str>) -> Option<Seq<char>> {
    match header {
        Some(value) => Some(value@),
        None => None,
    }
}

pub open spec fn text_result_view(result: Result<String, AppError>) -> Result<Seq<char>, AppErrorView> {
    match result {
        Ok(text) => Ok(text@),
        Err(err) => Err(err@),
    }
}

/// Takes the token out of the `Authorization` header. `None` stands for a
/// header that is missing or not text.
pub fn bearer_token(header: Option<&str>) -> (token: Result<String, AppError>)
    ensures
        text_result_view(token) == bearer_of(header_view(header)),
{
    let value = match header {
        None => {
            return Err(
                AppError::unauthorized(String::from_str("Authorization header is missing.")),
            );
        },
        Some(value) => value,
    };
    let chars = chars_of(value);
    if chars.len() >= 7 {
        let scheme = string_of(&chars, 0, 7);
        if same_text(scheme.as_str(), "Bearer ") {
            return Ok(string_of(&chars, 7, chars.len()));
        }
    }
    Err(AppError::bad_request(String::from_str("Authorization header must use the Bearer scheme.")))
}

/// Whether the state that an OAuth callback carries is the one that the
/// login left in the browser's cookie.
pub open spec fn oauth_state_verdict(cookie: Option<Seq<char>>, query: Seq<char>) -> Result<
    (),
    AppErrorView,
> {
    match cookie {
        None => Err(AppErrorView::BadRequest { reason: Some("OAuth state cookie is missing."@) }),
        Some(value) => if value == query {
            Ok(())
        } else {
            Err(AppErrorView::BadRequest { reason: Some("OAuth state parameter is invalid."@) })
        },
    }
}

pub open spec fn unit_result_view(result: Result<(), AppError>) -> Result<(), AppErrorView> {
    match result {
        Ok(_) => Ok(()),
        Err(err) => Err(err@),
    }
}

/// Checks the state of an OAuth callback against the cookie.
pub fn check_oauth_state(cookie: Option<&str>, query: &str) -> (verdict: Result<(), AppError>)
    ensures
        unit_result_view(verdict) == oauth_state_verdict(header_view(cookie), query@),
{
    match cookie {
        None => Err(AppError::bad_request(String::from_str("OAuth state cookie is missing."))),
        Some(value) => if same_text(value, query) {
            Ok(())
        } else {
            Err(AppError::bad_request(String::from_str("OAuth state parameter is invalid.")))
        },
    }
}

/// The error for a token request that Discord answered with `status`
/// (`None`: no answer): a 400 means that the refresh token was not
/// accepted, anything else is a failure of the service.
pub fn token_request_error(status: Option<u16>) -> (err: AppError)
    ensures
        err@ == if status == Some(400u16) {
            AppErrorView::BadRequest { reason: Some("Invalid refresh token."@) }
        } else {
            AppErrorView::Internal
        },
{
    match status {
        Some(400) => AppError::bad_request(String::from_str("Invalid refresh token.")),
        _ => AppError::Internal,
    }
}

/// Only the owner of a profile may change it.
pub fn check_owner(owner_id: i32, user: &User) -> (verdict: Result<(), AppError>)
    ensures
        verdict is Ok <==> owner_id == user.id,
        verdict matches Err(err) ==> err@ == AppErrorView::Forbidden,
{
    if owner_id == user.id {
        Ok(())
    } else {
        Err(AppError::Forbidden)
    }
}

} // verus!
