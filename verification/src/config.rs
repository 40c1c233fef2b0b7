//! Configuration of the OANDA data client.

use vstd::prelude::*;

use crate::common::enums::OandaEnvironment;
use crate::common::urls::{oanda_http_base_url, spec_http_base_url};

verus! {

/// Configuration for the OANDA live data client.
#[derive(Clone, Debug)]
pub struct OandaDataClientConfig {
    /// Bearer token used for authenticated REST requests.
    pub bearer_token: Option<String>,
    /// Optional override for the REST base URL.
    pub base_url_http: Option<String>,
    /// When `true`, connect to the practice (demo) environment.
    pub demo: bool,
    /// Optional REST timeout in seconds.
    pub http_timeout_secs: Option<u64>,
    /// Optional maximum retry attempts for REST requests.
    pub max_retries: Option<u32>,
    /// Optional initial retry backoff in milliseconds.
    pub retry_delay_initial_ms: Option<u64>,
    /// Optional maximum retry backoff in milliseconds.
    pub retry_delay_max_ms: Option<u64>,
    /// Optional interval (minutes) for instrument refresh from REST.
    pub update_instruments_interval_mins: Option<u64>,
}

impl OandaDataClientConfig {
    /// The default configuration: no token and no URL override, the live
    /// environment, a 60 s timeout, no retry limit of its own, 1 000 ms initial
    /// and 5 000 ms maximum retry backoff, and a 60 minute instrument refresh.
    pub open spec fn is_default(self) -> bool {
        &&& self.bearer_token is None
        &&& self.base_url_http is None
        &&& !self.demo
        &&& self.http_timeout_secs == Some(60u64)
        &&& self.max_retries is None
        &&& self.retry_delay_initial_ms == Some(1_000u64)
        &&& self.retry_delay_max_ms == Some(5_000u64)
        &&& self.update_instruments_interval_mins == Some(60u64)
    }

    /// The environment selected by the `demo` flag.
    pub open spec fn spec_environment(self) -> OandaEnvironment {
        if self.demo {
            OandaEnvironment::FxTradePractice
        } else {
            OandaEnvironment::FxTrade
        }
    }

    /// The REST base URL: the override when one is set, else the URL of the
    /// selected environment.
    pub open spec fn spec_http_base_url(self) -> Seq<char> {
        match self.base_url_http {
            Some(url) => url@,
            None => spec_http_base_url(self.spec_environment()),
        }
    }

    /// Creates a configuration with default values.
    pub fn new() -> (config: Self)
        ensures
            config.is_default(),
    {
        Self::default()
    }

    /// Returns the OANDA environment (practice vs live).
    pub fn environment(&self) -> (environment: OandaEnvironment)
        ensures
            environment == self.spec_environment(),
    {
        if self.demo {
            OandaEnvironment::FxTradePractice
        } else {
            OandaEnvironment::FxTrade
        }
    }

    /// Returns the REST base URL, considering overrides and the environment flag.
    pub fn http_base_url(&self) -> (url: String)
        ensures
            url@ == self.spec_http_base_url(),
    {
        match &self.base_url_http {
            Some(url) => url.clone(),
            None => oanda_http_base_url(self.environment()).to_owned(),
        }
    }
}

impl Default for OandaDataClientConfig {
    fn default() -> (config: Self)
        ensures
            config.is_default(),
    {
        OandaDataClientConfig {
            bearer_token: None,
            base_url_http: None,
            demo: false,
            http_timeout_secs: Some(60),
            max_retries: None,
            retry_delay_initial_ms: Some(1_000),
            retry_delay_max_ms: Some(5_000),
            update_instruments_interval_mins: Some(60),
        }
    }
}

} // verus!
