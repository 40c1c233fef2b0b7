//! Verified core of the OANDA V20 adapter: environments and REST base URLs,
//! the data client configuration, the REST payload models with their wire
//! codes, the HTTP request plan and retry policy, and the data client state.

pub mod common;
pub mod config;
pub mod http;
pub mod data;
