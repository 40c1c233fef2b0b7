//! HTTP integration for the OANDA V20 REST API.

pub mod client;
pub mod error;
pub mod models;
pub mod retry;
