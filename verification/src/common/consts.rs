//! OANDA adapter constants: the venue identifier and the REST base URLs.

use vstd::prelude::*;

verus! {

/// The venue identifier of OANDA.
pub const OANDA: &'static str = "OANDA";

/// REST base URL of the live (fxTrade) environment.
pub const OANDA_HTTP_URL: &'static str = "https://api-fxtrade.oanda.com";

/// REST base URL of the practice (fxTrade Practice) environment.
pub const OANDA_HTTP_PRACTICE_URL: &'static str = "https://api-fxpractice.oanda.com";

/// OANDA limits each IP address to this many REST requests per second;
/// excess requests are answered with HTTP 429.
pub const OANDA_REST_QUOTA_PER_SECOND: u32 = 120;

/// The `User-Agent` sent with every REST request.
pub const NAUTILUS_USER_AGENT: &'static str = "NautilusTrader";

} // verus!
