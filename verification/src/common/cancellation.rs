//! The cancellation token that stops a client's pending work.

use tokio_util::sync::CancellationToken;
use vstd::prelude::*;

verus! {

/// Declares `tokio_util::sync::CancellationToken`.
#[verifier::external_type_specification]
#[verifier::external_body]
pub struct ExCancellationToken(CancellationToken);

/// A cancellation token, with a record of whether it was cancelled through
/// this handle. Only [`CancellationHandle::new`] and
/// [`CancellationHandle::cancel`] set that record.
pub struct CancellationHandle {
    token: CancellationToken,
    cancelled: Ghost<bool>,
}

impl CancellationHandle {
    /// The token behind this handle.
    pub closed spec fn spec_token(&self) -> CancellationToken {
        self.token
    }

    /// Whether the token was cancelled through this handle.
    pub closed spec fn spec_cancelled(&self) -> bool {
        self.cancelled@
    }

    /// Calls `tokio_util::sync::CancellationToken::new`, which creates a token
    /// in the non-cancelled state; the handle records it as not cancelled.
    #[verifier::external_body]
    pub fn new() -> (handle: Self)
        ensures
            !handle.spec_cancelled(),
    {
        CancellationHandle { token: CancellationToken::new(), cancelled: Ghost(false) }
    }

    /// Calls `tokio_util::sync::CancellationToken::cancel`, which cancels the
    /// token and wakes every task waiting on it; the handle records the token
    /// as cancelled. The token itself stays the same.
    #[verifier::external_body]
    pub fn cancel(&mut self)
        ensures
            final(self).spec_cancelled(),
            final(self).spec_token() == old(self).spec_token(),
    {
        self.token.cancel()
    }

    /// Returns the token, for waiting on its cancellation.
    pub fn token(&self) -> (token: &CancellationToken)
        ensures
            *token == self.spec_token(),
    {
        &self.token
    }
}

} // verus!
