//! Errors that request handlers report, and the HTTP response each one becomes.
use crate::federation::verification::FederationError;
use vstd::prelude::*;

verus! {

broadcast use vstd::string::group_string_axioms;

/// A database failure, as far as the handlers distinguish it: a query that
/// expected a row found none, or anything else (with its message).
#[derive(Debug)]
pub enum DbError {
    RowNotFound,
    Other(String),
}

#[derive(Debug)]
pub enum ResponseError {
    NotFound,
    NotAuthenticated,
    /// An internal failure, with its message.
    Anyhow(String),
    UrlParseError(::url::ParseError),
    FederationError(FederationError),
}

pub type ResponseResult<T> = Result<T, ResponseError>;

/// `r` failed with an internal error that carries message `msg`.
pub open spec fn is_anyhow<T>(r: ResponseResult<T>, msg: Seq<char>) -> bool {
    r matches Err(ResponseError::Anyhow(m)) && m@ == msg
}

/// What an error response consists of: status code, redirect target, body text.
#[derive(Debug)]
pub struct ErrorResponse {
    pub status: u16,
    pub location: Option<String>,
    pub body: String,
}

/// The `Display` text of each error.
pub open spec fn response_error_message(e: ResponseError) -> Seq<char> {
    match e {
        ResponseError::NotFound => "Not Found"@,
        ResponseError::NotAuthenticated => "Authentication Failed"@,
        _ => "Internal Error"@,
    }
}

/// `NotFound` answers 404 with its message, `NotAuthenticated` redirects to
/// the login page (303 See Other), every other error answers 500.
pub open spec fn spec_error_response(e: ResponseError, r: ErrorResponse) -> bool {
    match e {
        ResponseError::NotFound => r.status == 404 && r.location is None && r.body@
            == "Not Found"@,
        ResponseError::NotAuthenticated => {
            &&& r.status == 303
            &&& r.location matches Some(l) && l@ == "/login"@
            &&& r.body@ == Seq::<char>::empty()
        },
        _ => r.status == 500 && r.location is None && r.body@ == "Internal Error"@,
    }
}

impl ResponseError {
    pub fn message(&self) -> (m: String)
        ensures
            m@ == response_error_message(*self),
    {
        match self {
            ResponseError::NotFound => "Not Found".to_string(),
            ResponseError::NotAuthenticated => "Authentication Failed".to_string(),
            _ => "Internal Error".to_string(),
        }
    }

    /// The response that the handler sends for this error.
    pub fn into_response(&self) -> (r: ErrorResponse)
        ensures
            spec_error_response(*self, r),
    {
        match self {
            ResponseError::NotFound => ErrorResponse {
                status: 404,
                location: None,
                body: "Not Found".to_string(),
            },
            ResponseError::NotAuthenticated => ErrorResponse {
                status: 303,
                location: Some("/login".to_string()),
                body: String::new(),
            },
            _ => ErrorResponse { status: 500, location: None, body: "Internal Error".to_string() },
        }
    }

    /// A missing row becomes `NotFound`; any other database failure is internal.
    pub fn from_db(e: DbError) -> (r: ResponseError)
        ensures
            e is RowNotFound ==> r is NotFound,
            e matches DbError::Other(m) ==> r matches ResponseError::Anyhow(m2) && m2@ == m@,
    {
        match e {
            DbError::RowNotFound => ResponseError::NotFound,
            DbError::Other(m) => ResponseError::Anyhow(m),
        }
    }

    pub fn from_federation(e: FederationError) -> (r: ResponseError)
        ensures
            r == ResponseError::FederationError(e),
    {
        ResponseError::FederationError(e)
    }

    pub fn from_url(e: ::url::ParseError) -> (r: ResponseError)
        ensures
            r == ResponseError::UrlParseError(e),
    {
        ResponseError::UrlParseError(e)
    }
}

/// Map [`ResponseError::NotFound`] to `None`.
pub fn into_option<T>(result: ResponseResult<T>) -> (r: ResponseResult<Option<T>>)
    ensures
        result matches Ok(v) ==> r == Ok::<Option<T>, ResponseError>(Some(v)),
        result matches Err(ResponseError::NotFound) ==> r == Ok::<Option<T>, ResponseError>(None),
        result is Err && !(result->Err_0 is NotFound) ==> r is Err && r->Err_0 == result->Err_0,
{
    match result {
        Ok(val) => Ok(Some(val)),
        Err(ResponseError::NotFound) => Ok(None),
        Err(e) => Err(e),
    }
}

} // verus!
