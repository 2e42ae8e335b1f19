//! The hard-error channel: what ends a request instead of answering it.

use vstd::prelude::*;
use vstd::string::*;

verus! {

/// The status of an answer that reports a fault of the server.
pub const INTERNAL_SERVER_ERROR: u16 = 500;

/// The status of an answer to a request that carries no identity.
pub const UNAUTHORIZED: u16 = 401;

/// The status of an answer about something that does not exist.
pub const NOT_FOUND: u16 = 404;

/// An error that ends a request.
#[derive(Debug, Clone)]
pub enum AppError {
    /// An error that is answered with the given status code.
    HttpError(u16, String),
    /// Any other fault; it is answered with status 500.
    Internal(String),
}

/// The value of an [`AppError`].
pub enum AppErrorView {
    HttpError(u16, Seq<char>),
    Internal(Seq<char>),
}

impl View for AppError {
    type V = AppErrorView;

    open spec fn view(&self) -> AppErrorView {
        match self {
            AppError::HttpError(status, detail) => AppErrorView::HttpError(*status, detail@),
            AppError::Internal(detail) => AppErrorView::Internal(detail@),
        }
    }
}

impl AppErrorView {
    /// The status code the error is answered with.
    pub open spec fn status(self) -> u16 {
        match self {
            AppErrorView::HttpError(status, _) => status,
            AppErrorView::Internal(_) => INTERNAL_SERVER_ERROR,
        }
    }

    /// The body the error is answered with.
    pub open spec fn body(self) -> Seq<char> {
        match self {
            AppErrorView::HttpError(_, detail) => "Error: "@ + detail,
            AppErrorView::Internal(detail) => "Internal Server Error: "@ + detail,
        }
    }
}

impl AppError {
    /// The status code and the body that answer the error.
    pub fn into_response(self) -> (r: (u16, String))
        ensures
            r.0 == self@.status(),
            r.1@ == self@.body(),
    {
        match self {
            AppError::HttpError(status, detail) => {
                (status, String::from_str("Error: ").concat(detail.as_str()))
            },
            AppError::Internal(detail) => {
                (
                    INTERNAL_SERVER_ERROR,
                    String::from_str("Internal Server Error: ").concat(detail.as_str()),
                )
            },
        }
    }
}

impl From<String> for AppError {
    /// Any fault that is not given a status is an internal one.
    fn from(detail: String) -> (r: AppError) {
        AppError::Internal(detail)
    }
}

impl vstd::std_specs::convert::FromSpecImpl<String> for AppError {
    open spec fn obeys_from_spec() -> bool {
        true
    }

    open spec fn from_spec(detail: String) -> AppError {
        AppError::Internal(detail)
    }
}

} // verus!
