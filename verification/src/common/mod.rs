//! Constants, enums, URL helpers, and the handles of cancellable work shared
//! by the adapter.

pub mod cancellation;
pub mod consts;
pub mod credential;
pub mod enums;
pub mod task;
pub mod urls;
