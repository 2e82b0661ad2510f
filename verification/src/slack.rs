//! The part of the Slack Web API that the bot speaks.

use vstd::prelude::*;
use vstd::string::*;

verus! {

/// The parameters of `chat.postMessage`.
#[derive(Debug, Default, PartialEq, Eq)]
pub struct PostMessageParams<'a, 'b> {
    pub channel: &'a str,
    pub text: &'b str,
}

/// Why a call of the API failed.
#[derive(Debug, PartialEq, Eq)]
pub enum ApiError {
    /// The request did not get through; the text says why.
    Request(String),
    /// The API refused the call, with this error.
    Slack(String),
    /// The API refused the call without naming an error.
    Incomplete,
}

impl ApiError {
    /// The error as a person reads it.
    pub open spec fn spec_description(&self) -> Seq<char> {
        match self {
            ApiError::Request(reason) => "request error: "@ + reason@,
            ApiError::Slack(error) => "slack error: "@ + error@,
            ApiError::Incomplete => "the slack api returned an incomplete error"@,
        }
    }

    /// The error as a person reads it.
    pub fn description(&self) -> (r: String)
        ensures
            r@ == self.spec_description(),
    {
        match self {
            ApiError::Request(reason) => String::from_str("request error: ").concat(
                reason.as_str(),
            ),
            ApiError::Slack(error) => String::from_str("slack error: ").concat(error.as_str()),
            ApiError::Incomplete => String::from_str("the slack api returned an incomplete error"),
        }
    }
}

/// The envelope of every answer of the API.
#[derive(Debug, PartialEq, Eq)]
pub struct Response {
    pub ok: bool,
    pub error: Option<String>,
}

impl Response {
    /// What the answer means for the caller.
    pub open spec fn spec_into_result(self) -> Result<(), ApiError> {
        if self.ok {
            Ok(())
        } else {
            match self.error {
                Some(error) => Err(ApiError::Slack(error)),
                None => Err(ApiError::Incomplete),
            }
        }
    }

    /// Reads the answer: success for an accepted call, the error of a refused
    /// one, and `Incomplete` where a refusal names no error.
    pub fn into_result(self) -> (r: Result<(), ApiError>)
        ensures
            r == self.spec_into_result(),
    {
        if self.ok {
            Ok(())
        } else {
            match self.error {
                Some(error) => Err(ApiError::Slack(error)),
                None => Err(ApiError::Incomplete),
            }
        }
    }
}

} // verus!
