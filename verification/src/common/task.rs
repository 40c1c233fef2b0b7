//! Handles of the background tasks that a client runs.

use tokio::task::JoinHandle;
use vstd::prelude::*;

verus! {

/// Declares `tokio::task::JoinHandle`.
#[verifier::external_type_specification]
#[verifier::external_body]
#[verifier::reject_recursive_types(T)]
pub struct ExJoinHandle<T>(JoinHandle<T>);

/// Declares `tokio::task::JoinError`, the error a task ends with when it
/// panics or is cancelled; Verus needs it to accept `JoinHandle`, whose
/// `Future` output holds it.
#[verifier::external_type_specification]
#[verifier::external_body]
pub struct ExJoinError(tokio::task::JoinError);

/// The handle of a background task, with a record of whether the task was
/// aborted through it. Only [`TaskHandle::new`] and [`TaskHandle::abort`]
/// set that record.
pub struct TaskHandle {
    handle: JoinHandle<()>,
    aborted: Ghost<bool>,
}

impl TaskHandle {
    /// The tokio handle of the task.
    pub closed spec fn spec_handle(&self) -> JoinHandle<()> {
        self.handle
    }

    /// Whether the task was aborted through this handle.
    pub closed spec fn spec_aborted(&self) -> bool {
        self.aborted@
    }

    /// Wraps the handle of a task that has not been aborted through it.
    pub fn new(handle: JoinHandle<()>) -> (task: Self)
        ensures
            task.spec_handle() == handle,
            !task.spec_aborted(),
    {
        TaskHandle { handle, aborted: Ghost(false) }
    }

    /// Calls `tokio::task::JoinHandle::abort`, which asks the runtime to cancel
    /// the task; the handle records the task as aborted. The tokio handle
    /// stays the same.
    #[verifier::external_body]
    pub fn abort(&mut self)
        ensures
            final(self).spec_aborted(),
            final(self).spec_handle() == old(self).spec_handle(),
    {
        self.handle.abort()
    }

    /// Gives up the wrapper and returns the tokio handle, to await the task.
    pub fn into_join_handle(self) -> (handle: JoinHandle<()>)
        ensures
            handle == self.spec_handle(),
    {
        self.handle
    }
}

} // verus!
