//! Errors of the OANDA HTTP client.

use vstd::prelude::*;

verus! {

/// An error raised while talking to the OANDA REST API.
#[derive(Clone, Debug, PartialEq, Eq)]
pub enum OandaHttpError {
    /// The request needs authentication, but no credentials are configured.
    MissingCredentials,
    /// The server answered with a status that the client does not accept.
    UnexpectedStatus { status: u16, body: String },
    /// A transport failure, a cancelled request, or an unsuccessful response.
    NetworkError(String),
    /// The response body is not the JSON document that was expected.
    JsonError(String),
}

impl OandaHttpError {
    /// Whether a request that failed with this error is worth trying again:
    /// transport failures always are, as are server errors (status 500 and
    /// above) and rate limiting (status 429); nothing else is.
    pub open spec fn spec_should_retry(&self) -> bool {
        match self {
            OandaHttpError::NetworkError(_) => true,
            OandaHttpError::UnexpectedStatus { status, .. } => *status >= 500 || *status == 429,
            _ => false,
        }
    }

    /// Returns whether a request that failed with this error should be retried.
    pub fn should_retry(&self) -> (retry: bool)
        ensures
            retry == self.spec_should_retry(),
    {
        match self {
            OandaHttpError::NetworkError(_) => true,
            OandaHttpError::UnexpectedStatus { status, .. } => *status >= 500 || *status == 429,
            _ => false,
        }
    }
}

/// Which failures are retried: every transport failure; of the unexpected
/// statuses every server error (500 to 599 and beyond) and rate limiting
/// (429), and no other status; never missing credentials or an undecodable
/// body.
pub proof fn lemma_retryable_errors(status: u16, body: String, message: String)
    ensures
        OandaHttpError::NetworkError(message).spec_should_retry(),
        status >= 500 ==> (OandaHttpError::UnexpectedStatus { status, body }).spec_should_retry(),
        status == 429 ==> (OandaHttpError::UnexpectedStatus { status, body }).spec_should_retry(),
        status < 500 && status != 429 ==> !(OandaHttpError::UnexpectedStatus {
            status,
            body,
        }).spec_should_retry(),
        !OandaHttpError::MissingCredentials.spec_should_retry(),
        !OandaHttpError::JsonError(message).spec_should_retry(),
{
}

} // verus!
