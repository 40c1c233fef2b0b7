use nautilus_oanda::common::consts::{OANDA_HTTP_PRACTICE_URL, OANDA_HTTP_URL};
use nautilus_oanda::common::enums::OandaEnvironment;
use nautilus_oanda::common::urls::oanda_http_base_url;
use nautilus_oanda::config::OandaDataClientConfig;

#[test]
fn config_resolves_environment_and_urls() {
    let default = OandaDataClientConfig::default();
    assert_eq!(default.environment(), OandaEnvironment::FxTrade);
    assert_eq!(default.http_base_url(), OANDA_HTTP_URL);

    let practice = OandaDataClientConfig {
        demo: true,
        ..Default::default()
    };
    assert_eq!(practice.environment(), OandaEnvironment::FxTradePractice);
    assert_eq!(practice.http_base_url(), OANDA_HTTP_PRACTICE_URL);

    let override_config = OandaDataClientConfig {
        base_url_http: Some("https://example.oanda.test".to_string()),
        ..Default::default()
    };
    assert_eq!(override_config.http_base_url(), "https://example.oanda.test");
}

#[test]
fn config_default_values() {
    let config = OandaDataClientConfig::new();
    assert!(config.bearer_token.is_none());
    assert!(config.base_url_http.is_none());
    assert!(!config.demo);
    assert_eq!(config.http_timeout_secs, Some(60));
    assert_eq!(config.max_retries, None);
    assert_eq!(config.retry_delay_initial_ms, Some(1_000));
    assert_eq!(config.retry_delay_max_ms, Some(5_000));
    assert_eq!(config.update_instruments_interval_mins, Some(60));
}

#[test]
fn override_wins_over_demo_flag() {
    let config = OandaDataClientConfig {
        demo: true,
        base_url_http: Some("http://localhost:8080".to_string()),
        ..Default::default()
    };
    assert_eq!(config.environment(), OandaEnvironment::FxTradePractice);
    assert_eq!(config.http_base_url(), "http://localhost:8080");
}

#[test]
fn base_url_per_environment() {
    assert_eq!(
        oanda_http_base_url(OandaEnvironment::FxTrade),
        "https://api-fxtrade.oanda.com"
    );
    assert_eq!(
        oanda_http_base_url(OandaEnvironment::FxTradePractice),
        "https://api-fxpractice.oanda.com"
    );
}
