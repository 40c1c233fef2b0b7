use nautilus_oanda::common::cancellation::CancellationHandle;
use nautilus_oanda::common::task::TaskHandle;
use nautilus_oanda::config::OandaDataClientConfig;
use nautilus_oanda::data::{InstrumentId, OandaDataClient, OandaDataClientError};
use nautilus_oanda::http::client::OandaHttpInnerClient;
use nautilus_oanda::http::error::OandaHttpError;

#[test]
fn cancellation_handle_cancels_its_token() {
    let mut handle = CancellationHandle::new();
    assert!(!handle.token().is_cancelled());
    handle.cancel();
    assert!(handle.token().is_cancelled());
}

#[test]
fn http_client_token_starts_uncancelled() {
    let client = OandaHttpInnerClient::new(None, None, None, None, None).unwrap();
    assert!(!client.cancellation_token().token().is_cancelled());
}

#[test]
fn task_handle_aborts_its_task() {
    let runtime = tokio::runtime::Builder::new_current_thread()
        .enable_time()
        .build()
        .unwrap();
    runtime.block_on(async {
        let handle = tokio::spawn(async {
            tokio::time::sleep(std::time::Duration::from_secs(3600)).await;
        });
        let mut task = TaskHandle::new(handle);
        task.abort();
        let outcome = task.into_join_handle().await;
        assert!(outcome.unwrap_err().is_cancelled());
    });
}

#[test]
fn data_client_error_messages() {
    let missing = OandaDataClientError::InstrumentNotFound(InstrumentId::new(
        "EUR_USD".to_string(),
        "OANDA".to_string(),
    ));
    assert_eq!(missing.message(), "Instrument EUR_USD.OANDA not found");
    let http = OandaDataClientError::HttpClient(OandaHttpError::MissingCredentials);
    assert_eq!(http.message(), "failed to construct OANDA HTTP client");
}

#[test]
fn stop_and_reset_keep_client_usable() {
    let mut client =
        OandaDataClient::new("F".to_string(), OandaDataClientConfig::default()).unwrap();
    client.connect().unwrap();
    client.stop().unwrap();
    assert!(client.is_disconnected());
    client.reset().unwrap();
    client.connect().unwrap();
    assert!(client.is_connected());
}
