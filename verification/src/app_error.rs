//! The older error type of request handlers.
use crate::response_error::{DbError, ErrorResponse};
use vstd::prelude::*;

verus! {

broadcast use vstd::string::group_string_axioms;

#[derive(Debug)]
pub enum AppError {
    /// An internal failure, with its message.
    Anyhow(String),
    NotFound,
    NotAuthenticated,
}

pub type Result<T> = core::result::Result<T, AppError>;

pub open spec fn app_error_message(e: AppError) -> Seq<char> {
    match e {
        AppError::Anyhow(_) => "Unknown Error"@,
        AppError::NotFound => "Not Found"@,
        AppError::NotAuthenticated => "Authentication Failed"@,
    }
}

pub open spec fn app_error_status(e: AppError) -> u16 {
    match e {
        AppError::Anyhow(_) => 500,
        AppError::NotFound => 404,
        AppError::NotAuthenticated => 401,
    }
}

impl AppError {
    pub fn message(&self) -> (m: String)
        ensures
            m@ == app_error_message(*self),
    {
        match self {
            AppError::Anyhow(_) => "Unknown Error".to_string(),
            AppError::NotFound => "Not Found".to_string(),
            AppError::NotAuthenticated => "Authentication Failed".to_string(),
        }
    }

    /// The status code goes with the error's message as body.
    pub fn into_response(&self) -> (r: ErrorResponse)
        ensures
            r.status == app_error_status(*self),
            r.location is None,
            r.body@ == app_error_message(*self),
    {
        let status: u16 = match self {
            AppError::Anyhow(_) => 500,
            AppError::NotFound => 404,
            AppError::NotAuthenticated => 401,
        };
        ErrorResponse { status, location: None, body: self.message() }
    }

    /// A missing row becomes `NotFound`; any other database failure is internal.
    pub fn from(value: DbError) -> (r: AppError)
        ensures
            value is RowNotFound ==> r is NotFound,
            value matches DbError::Other(m) ==> r matches AppError::Anyhow(m2) && m2@ == m@,
    {
        match value {
            DbError::RowNotFound => AppError::NotFound,
            DbError::Other(m) => AppError::Anyhow(m),
        }
    }
}

} // verus!
