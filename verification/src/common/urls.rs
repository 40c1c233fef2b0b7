//! Helpers for resolving OANDA REST base URLs.

use vstd::prelude::*;

use crate::common::consts::{OANDA_HTTP_PRACTICE_URL, OANDA_HTTP_URL};
use crate::common::enums::OandaEnvironment;

verus! {

/// The REST base URL of `environment`, as characters.
pub open spec fn spec_http_base_url(environment: OandaEnvironment) -> Seq<char> {
    match environment {
        OandaEnvironment::FxTradePractice => OANDA_HTTP_PRACTICE_URL@,
        OandaEnvironment::FxTrade => OANDA_HTTP_URL@,
    }
}

/// Returns the REST base URL of `environment`.
pub fn oanda_http_base_url(environment: OandaEnvironment) -> (url: &'static str)
    ensures
        url@ == spec_http_base_url(environment),
{
    match environment {
        OandaEnvironment::FxTradePractice => OANDA_HTTP_PRACTICE_URL,
        OandaEnvironment::FxTrade => OANDA_HTTP_URL,
    }
}

} // verus!
