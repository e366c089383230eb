//! The REST client of FTX.
//!
//! FTX has Spot, LinearFuture, LinearSwap, Option, Move and BVOL markets.

use vstd::prelude::*;
use vstd::string::*;

verus! {

pub const BASE_URL: &'static str = "https://ftx.com/api";

/// The address of the latest level 2 snapshot of the orderbook of `symbol`,
/// with its top 100 bids and asks.
pub open spec fn l2_snapshot_url(symbol: Seq<char>) -> Seq<char> {
    "https://ftx.com/api"@ + "/markets/"@ + symbol + "/orderbook?depth=100"@
}

/// The RESTful client for FTX.
#[derive(Debug)]
pub struct FtxRestClient {
    _api_key: Option<String>,
    _api_secret: Option<String>,
}

impl FtxRestClient {
    /// The key that the client was made with.
    pub closed spec fn api_key(&self) -> Option<String> {
        self._api_key
    }

    /// The secret that the client was made with.
    pub closed spec fn api_secret(&self) -> Option<String> {
        self._api_secret
    }

    pub fn new(api_key: Option<String>, api_secret: Option<String>) -> (client: Self)
        ensures
            client.api_key() == api_key,
            client.api_secret() == api_secret,
    {
        FtxRestClient { _api_key: api_key, _api_secret: api_secret }
    }

    /// Builds the address of the latest level 2 snapshot of `symbol`.
    ///
    /// For example `https://ftx.com/api/markets/BTC-PERP/orderbook?depth=100`.
    pub fn l2_snapshot_request(symbol: &str) -> (url: String)
        ensures
            url@ == l2_snapshot_url(symbol@),
    {
        let mut url = String::from_str(BASE_URL);
        url.append("/markets/");
        url.append(symbol);
        url.append("/orderbook?depth=100");
        assert(url@ =~= l2_snapshot_url(symbol@));
        url
    }

    /// Get the latest Level2 snapshot of orderbook.
    ///
    /// Top 100 bids and asks are returned. `http_get` makes the request: it
    /// is handed the address of the snapshot, and what it answers is
    /// returned as it is.
    pub fn fetch_l2_snapshot<E, F: Fn(String) -> Result<String, E>>(symbol: &str, http_get: F) -> (answer: Result<String, E>)
        requires
            forall|url: String| url@ == l2_snapshot_url(symbol@) ==> http_get.requires((url,)),
        ensures
            exists|url: String| url@ == l2_snapshot_url(symbol@) && http_get.ensures((url,), answer),
    {
        http_get(Self::l2_snapshot_request(symbol))
    }
}

} // verus!
