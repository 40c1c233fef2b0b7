//! API credentials for authenticated OANDA REST requests.

use vstd::prelude::*;

verus! {

/// An OANDA API credential: the personal access token sent as a bearer token.
pub struct Credential {
    bearer_token: String,
}

impl Credential {
    /// The bearer token, as characters.
    pub closed spec fn spec_bearer_token(&self) -> Seq<char> {
        self.bearer_token@
    }

    /// Creates a credential holding `bearer_token`.
    pub fn new(bearer_token: String) -> (credential: Self)
        ensures
            credential.spec_bearer_token() == bearer_token@,
    {
        Credential { bearer_token }
    }

    /// Returns a copy of the bearer token.
    pub fn bearer_token(&self) -> (token: String)
        ensures
            token@ == self.spec_bearer_token(),
    {
        self.bearer_token.clone()
    }
}

} // verus!
