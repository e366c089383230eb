use crypto_feed::ftx::{FtxRestClient, BASE_URL};

#[test]
fn client_is_made_with_or_without_credentials() {
    let _anonymous = FtxRestClient::new(None, None);
    let _known = FtxRestClient::new(Some("key".to_string()), Some("SECRET-REDACTED".to_string()));
    assert_eq!(BASE_URL, "https://ftx.com/api");
}

#[test]
fn snapshot_address() {
    assert_eq!(
        FtxRestClient::l2_snapshot_request("BTC-PERP"),
        "https://ftx.com/api/markets/BTC-PERP/orderbook?depth=100"
    );
    assert_eq!(
        FtxRestClient::l2_snapshot_request("BTC/USD"),
        "https://ftx.com/api/markets/BTC/USD/orderbook?depth=100"
    );
}

#[test]
fn fetch_hands_the_address_to_the_transport() {
    let answer: Result<String, String> =
        FtxRestClient::fetch_l2_snapshot("BTC-PERP", |url: String| Ok(format!("got {}", url)));
    assert_eq!(
        answer.unwrap(),
        "got https://ftx.com/api/markets/BTC-PERP/orderbook?depth=100"
    );
    let failed: Result<String, String> =
        FtxRestClient::fetch_l2_snapshot("BTC/USD", |_url: String| Err("offline".to_string()));
    assert_eq!(failed.unwrap_err(), "offline");
}
