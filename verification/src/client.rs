//! What the loader makes of the record store's answers.

use vstd::prelude::*;

verus! {

/// Why the record store did not take a request.
#[derive(Clone, Copy, Debug, PartialEq, Eq, Structural)]
pub enum Error {
    /// The server could not be reached.
    CommunicationError,
    /// The server failed: a status from 500 to 599.
    InternalServerError,
    /// The server refused the request: a status from 400 to 499.
    RequestError,
    /// The server answered with anything else that is no success.
    ResponseError,
}

/// What an HTTP status means for a request: success for 200 to 299, a
/// refused request for 400 to 499, a server failure for 500 to 599, and
/// an incorrect response for every other status.
pub open spec fn spec_check_status(status: u16) -> Result<(), Error> {
    if 200 <= status <= 299 {
        Ok(())
    } else if 400 <= status <= 499 {
        Err(Error::RequestError)
    } else if 500 <= status <= 599 {
        Err(Error::InternalServerError)
    } else {
        Err(Error::ResponseError)
    }
}

/// Tells from the HTTP status of the store's answer whether the store has
/// taken the request.
pub fn check_status(status: u16) -> (outcome: Result<(), Error>)
    ensures
        outcome == spec_check_status(status),
{
    if 200 <= status && status <= 299 {
        Ok(())
    } else if 400 <= status && status <= 499 {
        Err(Error::RequestError)
    } else if 500 <= status && status <= 599 {
        Err(Error::InternalServerError)
    } else {
        Err(Error::ResponseError)
    }
}

impl Error {
    /// The error in words.
    pub fn message(&self) -> (text: &'static str)
        ensures
            text@ == match self {
                Error::CommunicationError => "server unreachable"@,
                Error::InternalServerError => "internal server error"@,
                Error::RequestError => "invalid request"@,
                Error::ResponseError => "incorrect server response"@,
            },
    {
        match self {
            Error::CommunicationError => "server unreachable",
            Error::InternalServerError => "internal server error",
            Error::RequestError => "invalid request",
            Error::ResponseError => "incorrect server response",
        }
    }
}

} // verus!
