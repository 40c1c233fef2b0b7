use nautilus_oanda::common::consts::OANDA_HTTP_URL;
use nautilus_oanda::http::client::{
    instruments_endpoint, HttpMethod, OandaHttpClient, OandaHttpInnerClient,
};
use nautilus_oanda::http::error::OandaHttpError;
use nautilus_oanda::http::retry::{oanda_retry_config, RetryConfig};

#[test]
fn test_client_creation() {
    let client = OandaHttpClient::new(None, Some(60), None, None, None);
    assert!(client.is_ok());

    let client = client.unwrap();
    assert_eq!(client.base_url(), OANDA_HTTP_URL);
    assert!(client.credential().is_none());
}

#[test]
fn test_client_with_credentials() {
    let client = OandaHttpClient::with_credentials(
        "test_token".to_string(),
        None,
        Some(60),
        None,
        None,
        None,
    );
    assert!(client.is_ok());

    let client = client.unwrap();
    assert!(client.credential().is_some());
    assert_eq!(client.credential().unwrap().bearer_token(), "test_token");
}

#[test]
fn client_settings_follow_arguments() {
    let client = OandaHttpInnerClient::new(
        Some("http://127.0.0.1:9000".to_string()),
        Some(5),
        Some(7),
        Some(250),
        Some(2_000),
    )
    .unwrap();
    assert_eq!(client.base_url(), "http://127.0.0.1:9000");
    assert_eq!(client.timeout_secs(), Some(5));
    let retry = client.retry_config();
    assert_eq!(retry.max_retries, 7);
    assert_eq!(retry.initial_delay_ms, 250);
    assert_eq!(retry.max_delay_ms, 2_000);
    assert_eq!(OandaHttpInnerClient::rate_limit_per_second(), 120);
}

#[test]
fn instruments_request_is_a_plain_get() {
    let client = OandaHttpInnerClient::new(None, None, None, None, None).unwrap();
    assert_eq!(instruments_endpoint("123"), "/v3/accounts/123/instruments");
    let request = client.http_get_instruments_request("123").unwrap();
    assert_eq!(request.method, HttpMethod::Get);
    assert_eq!(
        request.url,
        "https://api-fxtrade.oanda.com/v3/accounts/123/instruments"
    );
    assert!(request.headers.is_none());
    assert!(request.body.is_none());
}

#[test]
fn authenticated_request_needs_credentials() {
    let anonymous = OandaHttpInnerClient::new(None, None, None, None, None).unwrap();
    let result = anonymous.prepare_request(HttpMethod::Get, "/v3/accounts", None, true);
    assert!(matches!(result, Err(OandaHttpError::MissingCredentials)));
    assert!(anonymous.bearer_auth_headers().is_none());

    let signed = OandaHttpInnerClient::with_credentials(
        "secret".to_string(),
        Some("http://localhost".to_string()),
        None,
        None,
        None,
        None,
    )
    .unwrap();
    let request = signed
        .prepare_request(HttpMethod::Post, "/v3/orders", Some(vec![1, 2, 3]), true)
        .unwrap();
    assert_eq!(request.method, HttpMethod::Post);
    assert_eq!(request.url, "http://localhost/v3/orders");
    assert_eq!(
        request.headers,
        Some(vec![("bearer auth".to_string(), "secret".to_string())])
    );
    assert_eq!(request.body, Some(vec![1, 2, 3]));

    let unsigned = signed
        .prepare_request(HttpMethod::Get, "/v3/accounts", None, false)
        .unwrap();
    assert!(unsigned.headers.is_none());
}

#[test]
fn default_headers_carry_user_agent() {
    assert_eq!(
        OandaHttpInnerClient::default_headers(),
        vec![("user-agent".to_string(), "NautilusTrader".to_string())]
    );
}

#[test]
fn responses_are_accepted_by_status() {
    assert_eq!(
        OandaHttpInnerClient::handle_response(200, vec![b'{', b'}']),
        Ok(vec![b'{', b'}'])
    );
    assert_eq!(OandaHttpInnerClient::handle_response(299, vec![]), Ok(vec![]));
    assert_eq!(
        OandaHttpInnerClient::handle_response(404, vec![]),
        Err(OandaHttpError::NetworkError("TODO".to_string()))
    );
    assert!(OandaHttpInnerClient::handle_response(199, vec![]).is_err());
    assert!(OandaHttpInnerClient::handle_response(300, vec![]).is_err());
}

#[test]
fn retryable_errors() {
    assert!(OandaHttpError::NetworkError("reset".to_string()).should_retry());
    let status = |status| OandaHttpError::UnexpectedStatus {
        status,
        body: String::new(),
    };
    assert!(status(500).should_retry());
    assert!(status(503).should_retry());
    assert!(status(429).should_retry());
    assert!(!status(400).should_retry());
    assert!(!status(404).should_retry());
    assert!(!OandaHttpError::MissingCredentials.should_retry());
    assert!(!OandaHttpError::JsonError("eof".to_string()).should_retry());
}

#[test]
fn retry_config_defaults() {
    let config = oanda_retry_config(None, None, None);
    assert_eq!(
        config,
        RetryConfig {
            max_retries: 3,
            initial_delay_ms: 1_000,
            max_delay_ms: 10_000,
            backoff_factor: 2,
            jitter_ms: 1_000,
            operation_timeout_ms: Some(60_000),
            immediate_first: false,
            max_elapsed_ms: Some(180_000),
        }
    );
}

#[test]
fn backoff_doubles_up_to_the_cap() {
    let config = oanda_retry_config(None, None, None);
    let delays: Vec<u64> = (0..7).map(|k| config.delay_ms(k)).collect();
    assert_eq!(delays, vec![1_000, 2_000, 4_000, 8_000, 10_000, 10_000, 10_000]);
    assert_eq!(config.delay_ms(u32::MAX), 10_000);

    let huge = RetryConfig {
        initial_delay_ms: u64::MAX / 2 + 1,
        max_delay_ms: u64::MAX,
        ..config
    };
    assert_eq!(huge.delay_ms(0), u64::MAX / 2 + 1);
    assert_eq!(huge.delay_ms(1), u64::MAX);

    let immediate = RetryConfig {
        immediate_first: true,
        ..config
    };
    assert_eq!(immediate.delay_ms(0), 0);
    assert_eq!(immediate.delay_ms(1), 2_000);

    let capped_low = RetryConfig {
        initial_delay_ms: 5_000,
        max_delay_ms: 3_000,
        ..config
    };
    assert_eq!(capped_low.delay_ms(0), 3_000);
}

#[test]
fn retry_decisions() {
    let config = oanda_retry_config(Some(2), Some(100), Some(1_000));
    let network = OandaHttpError::NetworkError("timeout".to_string());
    assert_eq!(config.retry_decision(0, 0, &network), Some(100));
    assert_eq!(config.retry_decision(1, 500, &network), Some(200));
    assert_eq!(config.retry_decision(2, 500, &network), None);
    assert_eq!(config.retry_decision(0, 180_000, &network), None);
    assert_eq!(
        config.retry_decision(0, 0, &OandaHttpError::MissingCredentials),
        None
    );
}

#[test]
fn request_timeout_is_the_shorter_limit() {
    let default = OandaHttpInnerClient::new(None, Some(60), None, None, None).unwrap();
    assert_eq!(default.request_timeout_ms(), Some(60_000));
    let short = OandaHttpInnerClient::new(None, Some(5), None, None, None).unwrap();
    assert_eq!(short.request_timeout_ms(), Some(5_000));
    let long = OandaHttpInnerClient::new(None, Some(600), None, None, None).unwrap();
    assert_eq!(long.request_timeout_ms(), Some(60_000));
    let unset = OandaHttpInnerClient::new(None, None, None, None, None).unwrap();
    assert_eq!(unset.request_timeout_ms(), Some(60_000));
}

#[test]
fn default_clients_use_live_url_without_credentials() {
    let inner = OandaHttpInnerClient::default();
    assert_eq!(inner.base_url(), OANDA_HTTP_URL);
    assert!(inner.credential().is_none());
    assert_eq!(inner.timeout_secs(), Some(60));
    let outer = OandaHttpClient::default();
    assert_eq!(outer.base_url(), OANDA_HTTP_URL);
    assert!(outer.credential().is_none());
    assert_eq!(outer.inner().retry_config(), oanda_retry_config(None, None, None));
}
