//! The HTTP client for the OANDA V20 REST API.
//!
//! The client decides what a request is (method, URL, headers, body), which
//! responses are accepted, and, through its [`RetryConfig`], when a failed
//! request is tried again. The transport itself runs outside this crate and
//! reports each response back to [`OandaHttpInnerClient::handle_response`].

use std::sync::Arc;

use vstd::prelude::*;

use crate::common::cancellation::CancellationHandle;
use crate::common::consts::{NAUTILUS_USER_AGENT, OANDA_REST_QUOTA_PER_SECOND};
use crate::common::credential::Credential;
use crate::common::enums::OandaEnvironment;
use crate::common::urls::{oanda_http_base_url, spec_http_base_url};
use crate::http::error::OandaHttpError;
use crate::http::retry::{oanda_retry_config, spec_oanda_retry_config, RetryConfig};

verus! {

/// The HTTP methods of REST requests.
#[derive(Clone, Copy, Debug, PartialEq, Eq, Structural)]
pub enum HttpMethod {
    Get,
    Post,
    Put,
    Patch,
    Delete,
}

/// A list of HTTP headers, as pairs of name and value.
pub open spec fn spec_header_view(headers: Vec<(String, String)>) -> Seq<(Seq<char>, Seq<char>)> {
    headers@.map_values(|h: (String, String)| (h.0@, h.1@))
}

/// A REST request, ready to be sent.
pub struct OandaHttpRequest {
    pub method: HttpMethod,
    pub url: String,
    /// Headers sent in addition to the client's default headers.
    pub headers: Option<Vec<(String, String)>>,
    pub body: Option<Vec<u8>>,
}

/// The endpoint of the tradeable instruments of `account_id`.
pub open spec fn spec_instruments_endpoint(account_id: Seq<char>) -> Seq<char> {
    "/v3/accounts/"@ + account_id + "/instruments"@
}

/// Returns the endpoint that lists the tradeable instruments of `account_id`.
pub fn instruments_endpoint(account_id: &str) -> (endpoint: String)
    ensures
        endpoint@ == spec_instruments_endpoint(account_id@),
{
    let mut endpoint = String::from_str("/v3/accounts/");
    endpoint.append(account_id);
    endpoint.append("/instruments");
    endpoint
}

/// Inner HTTP client implementation containing HTTP logic.
pub struct OandaHttpInnerClient {
    base_url: String,
    credential: Option<Credential>,
    timeout_secs: Option<u64>,
    retry_config: RetryConfig,
    cancellation_token: CancellationHandle,
}

impl OandaHttpInnerClient {
    /// The base URL of requests, as characters.
    pub closed spec fn spec_base_url(&self) -> Seq<char> {
        self.base_url@
    }

    /// The bearer token of the configured credential, if there is one.
    pub closed spec fn spec_token(&self) -> Option<Seq<char>> {
        match self.credential {
            Some(c) => Some(c.spec_bearer_token()),
            None => None,
        }
    }

    /// The timeout of a request, in seconds.
    pub closed spec fn spec_timeout_secs(&self) -> Option<u64> {
        self.timeout_secs
    }

    /// The token that cancels the retries of this client's requests.
    pub closed spec fn spec_cancellation_token(&self) -> CancellationHandle {
        self.cancellation_token
    }

    /// The retry policy of requests.
    pub closed spec fn spec_retry_config(&self) -> RetryConfig {
        self.retry_config
    }

    /// The base URL used when none is given: the live environment's.
    pub open spec fn spec_default_base_url(base_url: Option<String>) -> Seq<char> {
        match base_url {
            Some(url) => url@,
            None => spec_http_base_url(OandaEnvironment::FxTrade),
        }
    }

    /// Creates a new [`OandaHttpInnerClient`] without credentials, using the
    /// live OANDA REST URL unless `base_url` is given.
    pub fn new(
        base_url: Option<String>,
        timeout_secs: Option<u64>,
        max_retries: Option<u32>,
        retry_delay_ms: Option<u64>,
        retry_delay_max_ms: Option<u64>,
    ) -> (client: Result<Self, OandaHttpError>)
        ensures
            client matches Ok(c) && {
                &&& c.spec_base_url() == Self::spec_default_base_url(base_url)
                &&& c.spec_token() is None
                &&& c.spec_timeout_secs() == timeout_secs
                &&& !c.spec_cancellation_token().spec_cancelled()
                &&& c.spec_retry_config() == spec_oanda_retry_config(
                    max_retries,
                    retry_delay_ms,
                    retry_delay_max_ms,
                )
            },
    {
        let retry_config = oanda_retry_config(max_retries, retry_delay_ms, retry_delay_max_ms);
        let base_url = match base_url {
            Some(url) => url,
            None => oanda_http_base_url(OandaEnvironment::FxTrade).to_owned(),
        };
        Ok(OandaHttpInnerClient {
            base_url,
            credential: None,
            timeout_secs,
            retry_config,
            cancellation_token: CancellationHandle::new(),
        })
    }

    /// Creates a new [`OandaHttpInnerClient`] that authenticates with
    /// `bearer_token`, using the live OANDA REST URL unless `base_url` is given.
    pub fn with_credentials(
        bearer_token: String,
        base_url: Option<String>,
        timeout_secs: Option<u64>,
        max_retries: Option<u32>,
        retry_delay_ms: Option<u64>,
        retry_delay_max_ms: Option<u64>,
    ) -> (client: Result<Self, OandaHttpError>)
        ensures
            client matches Ok(c) && {
                &&& c.spec_base_url() == Self::spec_default_base_url(base_url)
                &&& c.spec_token() == Some(bearer_token@)
                &&& c.spec_timeout_secs() == timeout_secs
                &&& !c.spec_cancellation_token().spec_cancelled()
                &&& c.spec_retry_config() == spec_oanda_retry_config(
                    max_retries,
                    retry_delay_ms,
                    retry_delay_max_ms,
                )
            },
    {
        let retry_config = oanda_retry_config(max_retries, retry_delay_ms, retry_delay_max_ms);
        let base_url = match base_url {
            Some(url) => url,
            None => oanda_http_base_url(OandaEnvironment::FxTrade).to_owned(),
        };
        Ok(OandaHttpInnerClient {
            base_url,
            credential: Some(Credential::new(bearer_token)),
            timeout_secs,
            retry_config,
            cancellation_token: CancellationHandle::new(),
        })
    }

    /// Returns the base URL used for requests.
    pub fn base_url(&self) -> (url: &str)
        ensures
            url@ == self.spec_base_url(),
    {
        self.base_url.as_str()
    }

    /// Returns the API credential if configured.
    pub fn credential(&self) -> (credential: Option<&Credential>)
        ensures
            match credential {
                Some(c) => self.spec_token() == Some(c.spec_bearer_token()),
                None => self.spec_token() is None,
            },
    {
        match &self.credential {
            Some(c) => Some(c),
            None => None,
        }
    }

    /// Returns the timeout of a request, in seconds.
    pub fn timeout_secs(&self) -> (timeout: Option<u64>)
        ensures
            timeout == self.spec_timeout_secs(),
    {
        self.timeout_secs
    }

    /// How long one attempt may take, in milliseconds: the shorter of the
    /// client timeout and the retry policy's attempt timeout, when either is set.
    pub open spec fn spec_request_timeout_ms(&self) -> Option<int> {
        match (self.spec_timeout_secs(), self.spec_retry_config().operation_timeout_ms) {
            (Some(secs), Some(ms)) => Some(if ms <= secs * 1_000 {
                ms as int
            } else {
                secs * 1_000
            }),
            (Some(secs), None) => Some(secs * 1_000),
            (None, limit) => match limit {
                Some(ms) => Some(ms as int),
                None => None,
            },
        }
    }

    /// Returns how long one attempt may take, in milliseconds (saturating at
    /// `u64::MAX`).
    pub fn request_timeout_ms(&self) -> (timeout: Option<u64>)
        ensures
            match self.spec_request_timeout_ms() {
                Some(ms) => timeout == Some(if ms <= u64::MAX {
                    ms as u64
                } else {
                    u64::MAX
                }),
                None => timeout is None,
            },
    {
        let client_ms: Option<u64> = match self.timeout_secs {
            Some(secs) => Some(if secs <= u64::MAX / 1_000 {
                secs * 1_000
            } else {
                u64::MAX
            }),
            None => None,
        };
        match (client_ms, self.retry_config.operation_timeout_ms) {
            (Some(a), Some(b)) => Some(if b <= a {
                b
            } else {
                a
            }),
            (Some(a), None) => Some(a),
            (None, limit) => limit,
        }
    }

    /// Returns the retry policy of requests.
    pub fn retry_config(&self) -> (config: RetryConfig)
        ensures
            config == self.spec_retry_config(),
    {
        self.retry_config
    }

    /// Returns the token that cancels the retries of this client's requests.
    pub fn cancellation_token(&self) -> (token: &CancellationHandle)
        ensures
            *token == self.spec_cancellation_token(),
    {
        &self.cancellation_token
    }

    /// Returns how many requests per second OANDA accepts from one address.
    pub fn rate_limit_per_second() -> (quota: u32)
        ensures
            quota == OANDA_REST_QUOTA_PER_SECOND,
    {
        OANDA_REST_QUOTA_PER_SECOND
    }

    /// The headers sent with every request: the user agent.
    pub open spec fn spec_default_headers() -> Seq<(Seq<char>, Seq<char>)> {
        seq![("user-agent"@, NAUTILUS_USER_AGENT@)]
    }

    /// Returns the headers sent with every request.
    pub fn default_headers() -> (headers: Vec<(String, String)>)
        ensures
            spec_header_view(headers) == Self::spec_default_headers(),
    {
        let headers = vec![("user-agent".to_owned(), NAUTILUS_USER_AGENT.to_owned())];
        assert(spec_header_view(headers) =~= Self::spec_default_headers());
        headers
    }

    /// The authentication headers of this client: the bearer token, when
    /// credentials are configured.
    pub open spec fn spec_bearer_auth_headers(&self) -> Option<Seq<(Seq<char>, Seq<char>)>> {
        match self.spec_token() {
            Some(token) => Some(seq![("bearer auth"@, token)]),
            None => None,
        }
    }

    /// Returns the authentication headers, when credentials are configured.
    pub fn bearer_auth_headers(&self) -> (headers: Option<Vec<(String, String)>>)
        ensures
            match headers {
                Some(h) => self.spec_bearer_auth_headers() == Some(spec_header_view(h)),
                None => self.spec_bearer_auth_headers() is None,
            },
    {
        match &self.credential {
            Some(credential) => {
                let headers = vec![("bearer auth".to_owned(), credential.bearer_token())];
                assert(spec_header_view(headers) =~= seq![
                    ("bearer auth"@, credential.spec_bearer_token()),
                ]);
                Some(headers)
            },
            None => None,
        }
    }

    /// Prepares a request of `method` to `endpoint` (a path below the base
    /// URL) with `body`, authenticated when `authenticate` is set.
    ///
    /// Fails with [`OandaHttpError::MissingCredentials`] exactly when
    /// authentication is asked for and no credentials are configured.
    pub fn prepare_request(
        &self,
        method: HttpMethod,
        endpoint: &str,
        body: Option<Vec<u8>>,
        authenticate: bool,
    ) -> (request: Result<OandaHttpRequest, OandaHttpError>)
        ensures
            request is Err <==> authenticate && self.spec_token() is None,
            request matches Err(e) ==> e == OandaHttpError::MissingCredentials,
            request matches Ok(r) ==> {
                &&& r.method == method
                &&& r.url@ == self.spec_base_url() + endpoint@
                &&& r.body == body
                &&& match r.headers {
                    Some(h) => authenticate && self.spec_bearer_auth_headers() == Some(
                        spec_header_view(h),
                    ),
                    None => !authenticate,
                }
            },
    {
        if authenticate && self.credential.is_none() {
            return Err(OandaHttpError::MissingCredentials);
        }
        let mut url = self.base_url.clone();
        url.append(endpoint);
        let headers = if authenticate {
            self.bearer_auth_headers()
        } else {
            None
        };
        Ok(OandaHttpRequest { method, url, headers, body })
    }

    /// Prepares the request that lists the tradeable instruments of
    /// `account_id`: an unauthenticated `GET` without a body.
    pub fn http_get_instruments_request(&self, account_id: &str) -> (request: Result<
        OandaHttpRequest,
        OandaHttpError,
    >)
        ensures
            request matches Ok(r) && {
                &&& r.method == HttpMethod::Get
                &&& r.url@ == self.spec_base_url() + spec_instruments_endpoint(account_id@)
                &&& r.headers is None
                &&& r.body is None
            },
    {
        let endpoint = instruments_endpoint(account_id);
        self.prepare_request(HttpMethod::Get, endpoint.as_str(), None, false)
    }

    /// Whether an HTTP status reports success (`200` to `299`).
    pub open spec fn spec_is_success(status: u16) -> bool {
        200 <= status < 300
    }

    /// Every status from 200 to 299 is a success, and no other status is.
    pub proof fn lemma_success_statuses(status: u16)
        ensures
            200 <= status <= 299 ==> Self::spec_is_success(status),
            status < 200 || status > 299 ==> !Self::spec_is_success(status),
    {
    }

    /// Accepts the body of a response with a success status; any other
    /// status fails with a [`OandaHttpError::NetworkError`].
    pub fn handle_response(status: u16, body: Vec<u8>) -> (result: Result<Vec<u8>, OandaHttpError>)
        ensures
            Self::spec_is_success(status) ==> result == Ok::<Vec<u8>, OandaHttpError>(body),
            !Self::spec_is_success(status) ==> (result matches Err(OandaHttpError::NetworkError(
                message,
            )) && message@ == "TODO"@),
    {
        if 200 <= status && status < 300 {
            Ok(body)
        } else {
            proof {
                reveal_strlit("TODO");
            }
            Err(OandaHttpError::NetworkError("TODO".to_owned()))
        }
    }
}

impl Default for OandaHttpInnerClient {
    /// A client without credentials for the live environment, with a 60 s
    /// timeout and the default retry policy.
    fn default() -> (client: Self)
        ensures
            client.spec_base_url() == spec_http_base_url(OandaEnvironment::FxTrade),
            client.spec_token() is None,
            client.spec_timeout_secs() == Some(60u64),
            !client.spec_cancellation_token().spec_cancelled(),
            client.spec_retry_config() == spec_oanda_retry_config(None, None, None),
    {
        Self::new(None, Some(60), None, None, None).unwrap()
    }
}

/// Provides the HTTP client for connecting to the OANDA V20 REST API.
#[derive(Clone)]
pub struct OandaHttpClient {
    pub(crate) inner: Arc<OandaHttpInnerClient>,
}

impl OandaHttpClient {
    /// The inner client that does the work.
    pub closed spec fn spec_inner(&self) -> OandaHttpInnerClient {
        *self.inner
    }

    /// Creates a new [`OandaHttpClient`] without credentials, using the live
    /// OANDA REST URL unless `base_url` is given.
    pub fn new(
        base_url: Option<String>,
        timeout_secs: Option<u64>,
        max_retries: Option<u32>,
        retry_delay_ms: Option<u64>,
        retry_delay_max_ms: Option<u64>,
    ) -> (client: Result<Self, OandaHttpError>)
        ensures
            client matches Ok(c) && {
                let inner = c.spec_inner();
                &&& inner.spec_base_url() == OandaHttpInnerClient::spec_default_base_url(base_url)
                &&& inner.spec_token() is None
                &&& inner.spec_timeout_secs() == timeout_secs
                &&& !inner.spec_cancellation_token().spec_cancelled()
                &&& inner.spec_retry_config() == spec_oanda_retry_config(
                    max_retries,
                    retry_delay_ms,
                    retry_delay_max_ms,
                )
            },
    {
        let inner = OandaHttpInnerClient::new(
            base_url,
            timeout_secs,
            max_retries,
            retry_delay_ms,
            retry_delay_max_ms,
        )?;
        Ok(OandaHttpClient { inner: Arc::new(inner) })
    }

    /// Creates a new [`OandaHttpClient`] that authenticates with
    /// `bearer_token`, using the live OANDA REST URL unless `base_url` is given.
    pub fn with_credentials(
        bearer_token: String,
        base_url: Option<String>,
        timeout_secs: Option<u64>,
        max_retries: Option<u32>,
        retry_delay_ms: Option<u64>,
        retry_delay_max_ms: Option<u64>,
    ) -> (client: Result<Self, OandaHttpError>)
        ensures
            client matches Ok(c) && {
                let inner = c.spec_inner();
                &&& inner.spec_base_url() == OandaHttpInnerClient::spec_default_base_url(base_url)
                &&& inner.spec_token() == Some(bearer_token@)
                &&& inner.spec_timeout_secs() == timeout_secs
                &&& !inner.spec_cancellation_token().spec_cancelled()
                &&& inner.spec_retry_config() == spec_oanda_retry_config(
                    max_retries,
                    retry_delay_ms,
                    retry_delay_max_ms,
                )
            },
    {
        let inner = OandaHttpInnerClient::with_credentials(
            bearer_token,
            base_url,
            timeout_secs,
            max_retries,
            retry_delay_ms,
            retry_delay_max_ms,
        )?;
        Ok(OandaHttpClient { inner: Arc::new(inner) })
    }

    /// Returns the inner client.
    pub fn inner(&self) -> (inner: &OandaHttpInnerClient)
        ensures
            *inner == self.spec_inner(),
    {
        &self.inner
    }

    /// Returns the base URL used for requests.
    pub fn base_url(&self) -> (url: &str)
        ensures
            url@ == self.spec_inner().spec_base_url(),
    {
        self.inner.base_url()
    }

    /// Returns the API credential if configured.
    pub fn credential(&self) -> (credential: Option<&Credential>)
        ensures
            match credential {
                Some(c) => self.spec_inner().spec_token() == Some(c.spec_bearer_token()),
                None => self.spec_inner().spec_token() is None,
            },
    {
        self.inner.credential()
    }
}

impl Default for OandaHttpClient {
    /// A client without credentials for the live environment, with a 60 s
    /// timeout and the default retry policy.
    fn default() -> (client: Self)
        ensures
            client.spec_inner().spec_base_url() == spec_http_base_url(OandaEnvironment::FxTrade),
            client.spec_inner().spec_token() is None,
            client.spec_inner().spec_timeout_secs() == Some(60u64),
            !client.spec_inner().spec_cancellation_token().spec_cancelled(),
            client.spec_inner().spec_retry_config() == spec_oanda_retry_config(None, None, None),
    {
        OandaHttpClient { inner: Arc::new(OandaHttpInnerClient::default()) }
    }
}

} // verus!
