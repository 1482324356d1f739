//! The errors that a request can end in, and the page that reports each.

use crate::html::templates::{error_page, error_page_of};
use vstd::prelude::*;
use vstd::string::*;

verus! {

/// Why a request failed.
#[derive(Debug, Clone, PartialEq, Eq)]
pub enum AppError {
    BadRequest(String),
    NotFound(String),
    RateLimited,
    /// A failure of the service itself, with its description.
    Internal(String),
    ServiceUnavailable(String),
}

/// The value of an `AppError`.
pub enum AppErrorModel {
    BadRequest(Seq<char>),
    NotFound(Seq<char>),
    RateLimited,
    Internal(Seq<char>),
    ServiceUnavailable(Seq<char>),
}

impl View for AppError {
    type V = AppErrorModel;

    open spec fn view(&self) -> AppErrorModel {
        match self {
            AppError::BadRequest(message) => AppErrorModel::BadRequest(message@),
            AppError::NotFound(message) => AppErrorModel::NotFound(message@),
            AppError::RateLimited => AppErrorModel::RateLimited,
            AppError::Internal(message) => AppErrorModel::Internal(message@),
            AppError::ServiceUnavailable(message) => AppErrorModel::ServiceUnavailable(message@),
        }
    }
}

/// The sentence that describes an error.
pub open spec fn app_error_text(e: AppErrorModel) -> Seq<char> {
    match e {
        AppErrorModel::BadRequest(message) => "bad request: "@ + message,
        AppErrorModel::NotFound(message) => "not found: "@ + message,
        AppErrorModel::RateLimited => "rate limited"@,
        AppErrorModel::Internal(message) => "internal error: "@ + message,
        AppErrorModel::ServiceUnavailable(message) => "service unavailable: "@ + message,
    }
}

/// The HTTP status that reports an error.
pub open spec fn status_of(e: AppErrorModel) -> u16 {
    match e {
        AppErrorModel::BadRequest(_) => 400,
        AppErrorModel::NotFound(_) => 404,
        AppErrorModel::RateLimited => 429,
        AppErrorModel::Internal(_) => 500,
        AppErrorModel::ServiceUnavailable(_) => 503,
    }
}

/// The title of the page that reports an error.
pub open spec fn title_of(e: AppErrorModel) -> Seq<char> {
    match e {
        AppErrorModel::BadRequest(_) => "Bad Request"@,
        AppErrorModel::NotFound(_) => "Not Found"@,
        AppErrorModel::RateLimited => "Too Many Requests"@,
        AppErrorModel::Internal(_) => "Internal Server Error"@,
        AppErrorModel::ServiceUnavailable(_) => "Service Unavailable"@,
    }
}

/// What the page that reports an error tells the reader. The description
/// of an internal error is kept from the reader.
pub open spec fn reader_message_of(e: AppErrorModel) -> Seq<char> {
    match e {
        AppErrorModel::BadRequest(message) => message,
        AppErrorModel::NotFound(message) => message,
        AppErrorModel::RateLimited => "Rate limit exceeded. Please try again later."@,
        AppErrorModel::Internal(_) => "An unexpected error occurred."@,
        AppErrorModel::ServiceUnavailable(message) => message,
    }
}

impl AppError {
    /// The sentence that describes the error.
    pub fn to_string(&self) -> (r: String)
        ensures
            r@ == app_error_text(self@),
    {
        match self {
            AppError::BadRequest(message) => {
                let mut r = String::from_str("bad request: ");
                r.append(message.as_str());
                r
            },
            AppError::NotFound(message) => {
                let mut r = String::from_str("not found: ");
                r.append(message.as_str());
                r
            },
            AppError::RateLimited => String::from_str("rate limited"),
            AppError::Internal(message) => {
                let mut r = String::from_str("internal error: ");
                r.append(message.as_str());
                r
            },
            AppError::ServiceUnavailable(message) => {
                let mut r = String::from_str("service unavailable: ");
                r.append(message.as_str());
                r
            },
        }
    }

    /// The HTTP status that reports the error.
    pub fn status_code(&self) -> (r: u16)
        ensures
            r == status_of(self@),
    {
        match self {
            AppError::BadRequest(_) => 400,
            AppError::NotFound(_) => 404,
            AppError::RateLimited => 429,
            AppError::Internal(_) => 500,
            AppError::ServiceUnavailable(_) => 503,
        }
    }

    /// The response that reports the error: its status, and its page.
    pub fn into_response(self) -> (r: (u16, String))
        ensures
            r.0 == status_of(self@),
            r.1@ == error_page_of(status_of(self@), title_of(self@), reader_message_of(self@)),
    {
        let status = self.status_code();
        let page = match &self {
            AppError::BadRequest(message) => error_page(status, "Bad Request", message.as_str()),
            AppError::NotFound(message) => error_page(status, "Not Found", message.as_str()),
            AppError::RateLimited => error_page(
                status,
                "Too Many Requests",
                "Rate limit exceeded. Please try again later.",
            ),
            AppError::Internal(_) => error_page(
                status,
                "Internal Server Error",
                "An unexpected error occurred.",
            ),
            AppError::ServiceUnavailable(message) => error_page(
                status,
                "Service Unavailable",
                message.as_str(),
            ),
        };
        (status, page)
    }
}

} // verus!
