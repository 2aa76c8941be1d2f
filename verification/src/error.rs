//! The ways a request to GitHub can fail.

use vstd::prelude::*;

verus! {

#[verifier::external_type_specification]
#[verifier::external_body]
pub struct ExReqwestError(reqwest::Error);

#[verifier::external_type_specification]
#[verifier::external_body]
pub struct ExJsonError(serde_json::Error);

/// Why a request to GitHub gave no result.
#[derive(Debug)]
pub enum GithubError {
    /// GitHub answered 401: the token was refused.
    Unauthorized { body: String, source: reqwest::Error },
    /// GitHub answered with another client or server error status.
    Http { status: u16, body: String, source: reqwest::Error },
    /// The request could not be sent, or the reply could not be read.
    Connection(reqwest::Error),
    /// The reply was not the JSON that was expected.
    Parse(serde_json::Error),
    /// The reply was JSON of the expected shape, with a value that makes no sense.
    InvalidResponse(String),
}

impl From<reqwest::Error> for GithubError {
    fn from(e: reqwest::Error) -> (r: GithubError) {
        GithubError::Connection(e)
    }
}

impl vstd::std_specs::convert::FromSpecImpl<reqwest::Error> for GithubError {
    open spec fn obeys_from_spec() -> bool {
        true
    }

    open spec fn from_spec(v: reqwest::Error) -> GithubError {
        GithubError::Connection(v)
    }
}

impl From<serde_json::Error> for GithubError {
    fn from(e: serde_json::Error) -> (r: GithubError) {
        GithubError::Parse(e)
    }
}

impl vstd::std_specs::convert::FromSpecImpl<serde_json::Error> for GithubError {
    open spec fn obeys_from_spec() -> bool {
        true
    }

    open spec fn from_spec(v: serde_json::Error) -> GithubError {
        GithubError::Parse(v)
    }
}

} // verus!
