//! The service's error type and the HTTP status each error stands for.

use vstd::prelude::*;

verus! {

/// What can go wrong while serving a request.
#[derive(Debug, PartialEq, Eq)]
pub enum AppError {
    NotFound,
    BadRequest { reason: Option<String> },
    Unauthorized { reason: Option<String> },
    Forbidden,
    /// A failure of a collaborator (database, HTTP client, anything else);
    /// the cause is logged by the caller and never shown to the client.
    Internal,
}

pub type AppResult<T> = Result<T, AppError>;

/// Mathematical model of an [`AppError`].
pub enum AppErrorView {
    NotFound,
    BadRequest { reason: Option<Seq<char>> },
    Unauthorized { reason: Option<Seq<char>> },
    Forbidden,
    Internal,
}

pub open spec fn reason_view(reason: Option<String>) -> Option<Seq<char>> {
    match reason {
        Some(text) => Some(text@),
        None => None,
    }
}

impl View for AppError {
    type V = AppErrorView;

    open spec fn view(&self) -> AppErrorView {
        match *self {
            AppError::NotFound => AppErrorView::NotFound,
            AppError::BadRequest { reason } => AppErrorView::BadRequest {
                reason: reason_view(reason),
            },
            AppError::Unauthorized { reason } => AppErrorView::Unauthorized {
                reason: reason_view(reason),
            },
            AppError::Forbidden => AppErrorView::Forbidden,
            AppError::Internal => AppErrorView::Internal,
        }
    }
}

/// The HTTP status code of an error.
pub open spec fn status_of(err: AppErrorView) -> int {
    match err {
        AppErrorView::NotFound => 404,
        AppErrorView::BadRequest { .. } => 400,
        AppErrorView::Unauthorized { .. } => 401,
        AppErrorView::Forbidden => 403,
        AppErrorView::Internal => 500,
    }
}

/// The text shown to the client for an error.
pub open spec fn message_of(err: AppErrorView) -> Seq<char> {
    match err {
        AppErrorView::NotFound => "Not found."@,
        AppErrorView::BadRequest { reason } => match reason {
            Some(text) => text,
            None => "Bad request."@,
        },
        AppErrorView::Unauthorized { reason } => match reason {
            Some(text) => text,
            None => "Unathorized."@,
        },
        AppErrorView::Forbidden => "Forbidden."@,
        AppErrorView::Internal => "Something went wrong."@,
    }
}

impl AppError {
    pub fn bad_request(reason: String) -> (err: AppError)
        ensures
            err@ == (AppErrorView::BadRequest { reason: Some(reason@) }),
    {
        AppError::BadRequest { reason: Some(reason) }
    }

    pub fn unauthorized(reason: String) -> (err: AppError)
        ensures
            err@ == (AppErrorView::Unauthorized { reason: Some(reason@) }),
    {
        AppError::Unauthorized { reason: Some(reason) }
    }

    /// The HTTP status code that answers a request which failed with `self`.
    pub fn status(&self) -> (code: u16)
        ensures
            code == status_of(self@),
    {
        match self {
            AppError::NotFound => 404,
            AppError::BadRequest { .. } => 400,
            AppError::Unauthorized { .. } => 401,
            AppError::Forbidden => 403,
            AppError::Internal => 500,
        }
    }

    /// The message sent to the client.
    pub fn message(&self) -> (text: String)
        ensures
            text@ == message_of(self@),
    {
        match self {
            AppError::NotFound => "Not found.".to_owned(),
            AppError::BadRequest { reason } => match reason {
                Some(text) => text.clone(),
                None => "Bad request.".to_owned(),
            },
            AppError::Unauthorized { reason } => match reason {
                Some(text) => text.clone(),
                None => "Unathorized.".to_owned(),
            },
            AppError::Forbidden => "Forbidden.".to_owned(),
            AppError::Internal => "Something went wrong.".to_owned(),
        }
    }
}

} // verus!
