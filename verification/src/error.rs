//! The service's error type.
//!
//! Failures of outside collaborators — the store, the HTTP client, the
//! scheduler's clock — reach the library as their message text; the service's
//! own refusals carry theirs.  `get_code` maps every variant to the HTTP
//! status the service answers with.

use vstd::prelude::*;

verus! {

/// An error of the service: a collaborator's failure or the service's own
/// refusal.
#[derive(Debug)]
#[allow(non_camel_case_types)]
pub enum Error {
    /// The relational store failed.
    SystemSqlxError(String),
    /// The HTTP client failed.
    SystemReqwestError(String),
    /// A required environment value could not be read.
    SystemLoadParametersError(String),
    /// Outbound mail failed.
    LettreFail(String),
    /// The web framework failed.
    SystemAxumError(String),
    /// The cron expression could not be evaluated.
    SystemCronError(String),
    /// The named thing does not exist.
    NOTFOUND(String),
    /// The request was malformed.
    BADREQUEST(String),
    /// Any other failure, described in text.
    CUSTOMERROR(String),
}

impl Error {
    /// The HTTP status code the service answers with for this error.
    pub fn get_code(&self) -> (code: u16)
        ensures
            code == match self {
                Error::BADREQUEST(_) => 400u16,
                Error::NOTFOUND(_) => 404u16,
                Error::LettreFail(_) => 502u16,
                _ => 500u16,
            },
    {
        match self {
            Error::BADREQUEST(_) => 400,
            Error::NOTFOUND(_) => 404,
            Error::LettreFail(_) => 502,
            _ => 500,
        }
    }

    /// The error's message text.
    pub fn message(&self) -> (r: String)
        ensures
            r@ == match self {
                Error::SystemSqlxError(s) => "this error message came from sqlx: "@ + s@,
                Error::SystemReqwestError(s) => s@,
                Error::SystemLoadParametersError(s) => "Load Envirnoment Variable Error:"@ + s@,
                Error::LettreFail(s) => s@,
                Error::SystemAxumError(s) => s@,
                Error::SystemCronError(s) => s@,
                Error::NOTFOUND(s) => s@ + " is Not Found."@,
                Error::BADREQUEST(s) => s@,
                Error::CUSTOMERROR(s) => s@,
            },
    {
        match self {
            Error::SystemSqlxError(s) => {
                let r = String::from_str("this error message came from sqlx: ").concat(s.as_str());
                proof {
                    assert(r@ =~= "this error message came from sqlx: "@ + s@);
                }
                r
            },
            Error::SystemReqwestError(s) => s.clone(),
            Error::SystemLoadParametersError(s) => {
                let r = String::from_str("Load Envirnoment Variable Error:").concat(s.as_str());
                proof {
                    assert(r@ =~= "Load Envirnoment Variable Error:"@ + s@);
                }
                r
            },
            Error::LettreFail(s) => s.clone(),
            Error::SystemAxumError(s) => s.clone(),
            Error::SystemCronError(s) => s.clone(),
            Error::NOTFOUND(s) => {
                let r = s.clone().concat(" is Not Found.");
                proof {
                    assert(r@ =~= s@ + " is Not Found."@);
                }
                r
            },
            Error::BADREQUEST(s) => s.clone(),
            Error::CUSTOMERROR(s) => s.clone(),
        }
    }
}

/// A failure to authenticate a request.
#[derive(Clone, Copy, Debug, PartialEq, Eq, Structural)]
pub enum AuthenticateError {
    /// The credentials do not identify a user.
    InvalidToken,
}

} // verus!
