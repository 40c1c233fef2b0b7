use nautilus_oanda::common::consts::OANDA;
use nautilus_oanda::config::OandaDataClientConfig;
use nautilus_oanda::data::{
    datetime_to_unix_nanos, InstrumentId, OandaDataClient, OandaDataClientError,
    RequestInstrument, RequestInstruments, UtcDateTime,
};

fn instruments_request(client_id: Option<&str>) -> RequestInstruments {
    RequestInstruments {
        start: None,
        end: None,
        client_id: client_id.map(|c| c.to_string()),
        venue: Some(OANDA.to_string()),
        request_id: "request-1".to_string(),
        ts_init: 0,
        params: None,
    }
}

#[test]
fn data_client_lifecycle_and_requests() {
    let client_id = "OANDA-DATA-TEST";
    let config = OandaDataClientConfig::default();
    let mut client = OandaDataClient::new(client_id.to_string(), config)
        .expect("client construction succeeds");

    assert!(client.is_disconnected());
    client.start().expect("start succeeds");
    client.connect().expect("connect succeeds");
    assert!(client.is_connected());

    let response = client
        .request_instruments(&instruments_request(Some(client_id)), 42)
        .expect("request_instruments should succeed");
    assert!(response.data.is_empty(), "expected no cached instruments yet");
    assert_eq!(response.client_id, client_id);
    assert_eq!(response.venue, OANDA);
    assert_eq!(response.correlation_id, "request-1");
    assert_eq!(response.ts_init, 42);

    let instrument_id = InstrumentId::new("EUR_USD".to_string(), OANDA.to_string());
    let instrument_request = RequestInstrument {
        instrument_id,
        start: None,
        end: None,
        client_id: Some(client_id.to_string()),
        request_id: "request-2".to_string(),
        ts_init: 0,
        params: None,
    };
    match client.request_instrument(&instrument_request, 0) {
        Err(OandaDataClientError::InstrumentNotFound(id)) => {
            assert_eq!(id.symbol, "EUR_USD");
            assert_eq!(id.venue, "OANDA");
        }
        _ => panic!("expected an error for unknown instrument"),
    }

    let tasks = client.begin_disconnect().expect("a connected client hands over its tasks");
    assert!(tasks.is_empty());
    client.finish_disconnect();
    assert!(client.is_disconnected());
    client.stop().expect("stop succeeds");
}

#[test]
fn data_client_builds_http_client_from_config() {
    let anonymous = OandaDataClient::new("A".to_string(), OandaDataClientConfig::default()).unwrap();
    assert_eq!(anonymous.client_id(), "A");
    assert_eq!(anonymous.venue(), "OANDA");
    assert_eq!(
        anonymous.http_client().base_url(),
        "https://api-fxtrade.oanda.com"
    );
    assert!(anonymous.http_client().credential().is_none());

    let config = OandaDataClientConfig {
        bearer_token: Some("token".to_string()),
        demo: true,
        max_retries: Some(9),
        ..Default::default()
    };
    let signed = OandaDataClient::new("B".to_string(), config).unwrap();
    let http = signed.http_client();
    assert_eq!(http.base_url(), "https://api-fxpractice.oanda.com");
    assert_eq!(http.credential().unwrap().bearer_token(), "token");
    let retry = http.inner().retry_config();
    assert_eq!(retry.max_retries, 9);
    assert_eq!(retry.initial_delay_ms, 1_000);
    assert_eq!(retry.max_delay_ms, 5_000);
    assert_eq!(http.inner().timeout_secs(), Some(60));
}

#[test]
fn disconnect_of_disconnected_client_does_nothing() {
    let mut client = OandaDataClient::new("C".to_string(), OandaDataClientConfig::default()).unwrap();
    assert!(client.begin_disconnect().is_none());
    assert!(client.is_disconnected());
    client.connect().unwrap();
    client.connect().unwrap();
    assert!(client.is_connected());
    client.reset().unwrap();
    assert!(client.is_disconnected());
    client.connect().unwrap();
    client.dispose().unwrap();
    assert!(!client.is_connected());
}

#[test]
fn requests_default_to_receiving_client() {
    let client = OandaDataClient::new("D".to_string(), OandaDataClientConfig::default()).unwrap();
    let mut request = instruments_request(None);
    request.start = Some(UtcDateTime { secs: 1, subsec_nanos: 5 });
    request.end = Some(UtcDateTime { secs: -1, subsec_nanos: 0 });
    let response = client.request_instruments(&request, 7).unwrap();
    assert_eq!(response.client_id, "D");
    assert_eq!(response.start, Some(1_000_000_005));
    assert_eq!(response.end, None);
}

#[test]
fn unix_nanos_conversion() {
    assert_eq!(datetime_to_unix_nanos(None), None);
    assert_eq!(
        datetime_to_unix_nanos(Some(UtcDateTime { secs: 0, subsec_nanos: 0 })),
        Some(0)
    );
    assert_eq!(
        datetime_to_unix_nanos(Some(UtcDateTime {
            secs: 1_700_000_000,
            subsec_nanos: 123_456_789
        })),
        Some(1_700_000_000_123_456_789)
    );
    // The last representable instant, and the first one beyond it.
    assert_eq!(
        datetime_to_unix_nanos(Some(UtcDateTime {
            secs: 9_223_372_036,
            subsec_nanos: 854_775_807
        })),
        Some(i64::MAX as u64)
    );
    assert_eq!(
        datetime_to_unix_nanos(Some(UtcDateTime {
            secs: 9_223_372_036,
            subsec_nanos: 854_775_808
        })),
        None
    );
    assert_eq!(
        datetime_to_unix_nanos(Some(UtcDateTime {
            secs: -5,
            subsec_nanos: 0
        })),
        None
    );
    let before_epoch = UtcDateTime {
        secs: -1,
        subsec_nanos: 500_000_000,
    };
    assert_eq!(before_epoch.timestamp_nanos_opt(), Some(-500_000_000));
    let earliest = UtcDateTime {
        secs: -9_223_372_037,
        subsec_nanos: 145_224_192,
    };
    assert_eq!(earliest.timestamp_nanos_opt(), Some(i64::MIN));
}

#[test]
fn responses_carry_request_params() {
    let client = OandaDataClient::new("E".to_string(), OandaDataClientConfig::default()).unwrap();
    let mut request = instruments_request(None);
    request.params = Some(vec![
        ("account".to_string(), "101-001".to_string()),
        ("mode".to_string(), "full".to_string()),
    ]);
    let response = client.request_instruments(&request, 0).unwrap();
    assert_eq!(response.params, request.params);
    let response = client.request_instruments(&instruments_request(None), 0).unwrap();
    assert_eq!(response.params, None);
}
