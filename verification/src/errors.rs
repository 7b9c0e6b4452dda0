//! Errors of request handling and how each is shown to the user.

use vstd::prelude::*;

verus! {

/// Errors that can occur while handling a request.
#[derive(Debug, Clone, PartialEq, Eq)]
pub enum AppError {
    /// A database operation failed.
    Database,
    /// The resource does not exist.
    NotFound,
    /// The request is not valid; the message says why.
    ValidationError(String),
    /// The request is not authenticated; the message says why.
    Authentication(String),
}

/// HTTP status of each error: 500, 404, 400 and 401.
pub open spec fn status_code_of(e: AppError) -> u16 {
    match e {
        AppError::Database => 500,
        AppError::NotFound => 404,
        AppError::ValidationError(_) => 400,
        AppError::Authentication(_) => 401,
    }
}

impl AppError {
    /// The HTTP status code of the error page.
    pub fn status_code(&self) -> (c: u16)
        ensures
            c == status_code_of(*self),
    {
        match self {
            AppError::Database => 500,
            AppError::NotFound => 404,
            AppError::ValidationError(_) => 400,
            AppError::Authentication(_) => 401,
        }
    }

    /// The title of the error page.
    pub fn title(&self) -> (t: &'static str)
        ensures
            t@ == (match *self {
                AppError::Database => "Oops!"@,
                AppError::NotFound => "Nothing Here"@,
                AppError::ValidationError(_) => "Can't Do That"@,
                AppError::Authentication(_) => "Access Denied"@,
            }),
    {
        match self {
            AppError::Database => "Oops!",
            AppError::NotFound => "Nothing Here",
            AppError::ValidationError(_) => "Can't Do That",
            AppError::Authentication(_) => "Access Denied",
        }
    }

    /// The heading of the error page.
    pub fn heading(&self) -> (t: &'static str)
        ensures
            t@ == (match *self {
                AppError::Database => "Something went wrong"@,
                AppError::NotFound => "Gone."@,
                AppError::ValidationError(_) => "Wrong Day!"@,
                AppError::Authentication(_) => "Access Denied"@,
            }),
    {
        match self {
            AppError::Database => "Something went wrong",
            AppError::NotFound => "Gone.",
            AppError::ValidationError(_) => "Wrong Day!",
            AppError::Authentication(_) => "Access Denied",
        }
    }

    /// The message of the error page: the error's own message where it has one.
    pub fn message(&self) -> (m: String)
        ensures
            m@ == (match *self {
                AppError::Database => "Something went wrong"@,
                AppError::NotFound => "Like your motivation. Or your quests."@,
                AppError::ValidationError(msg) => msg@,
                AppError::Authentication(msg) => msg@,
            }),
    {
        match self {
            AppError::Database => String::from_str("Something went wrong"),
            AppError::NotFound => String::from_str("Like your motivation. Or your quests."),
            AppError::ValidationError(msg) => msg.clone(),
            AppError::Authentication(msg) => msg.clone(),
        }
    }

    /// The error's text (its `Display` in the application).
    pub fn to_text(&self) -> (m: String)
        ensures
            m@ == (match *self {
                AppError::Database => "Something went wrong"@,
                AppError::NotFound => "Not found"@,
                AppError::ValidationError(msg) => "Validation error: "@ + msg@,
                AppError::Authentication(msg) => "Authentication error: "@ + msg@,
            }),
    {
        match self {
            AppError::Database => String::from_str("Something went wrong"),
            AppError::NotFound => String::from_str("Not found"),
            AppError::ValidationError(msg) => {
                let mut s = String::from_str("Validation error: ");
                crate::text::push_str(&mut s, msg.as_str());
                s
            },
            AppError::Authentication(msg) => {
                let mut s = String::from_str("Authentication error: ");
                crate::text::push_str(&mut s, msg.as_str());
                s
            },
        }
    }
}

/// A validation error with the given message.
pub fn validation_error(msg: &str) -> (e: AppError)
    ensures
        e matches AppError::ValidationError(m) && m@ == msg@,
{
    AppError::ValidationError(String::from_str(msg))
}

/// An authentication error with the given message.
pub fn authentication_error(msg: &str) -> (e: AppError)
    ensures
        e matches AppError::Authentication(m) && m@ == msg@,
{
    AppError::Authentication(String::from_str(msg))
}

} // verus!
