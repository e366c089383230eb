//! What the crawler knows of Bitfinex: its name, its channel limit, and where
//! its data frames name their symbol.

use vstd::prelude::*;
use crate::frames::{first_symbol, symbol_of, text_view};
use crate::json::parse_array;

verus! {

pub const EXCHANGE_NAME: &'static str = "bitfinex";

/// Bitfinex allows 30 subscriptions to public market data channels on one
/// connection.
pub const MAX_SUBSCRIPTIONS_PER_CONNECTION: usize = 30;

/// The symbol of a data frame: the text under `symbol` in the first item of
/// the JSON array; `None` where the frame is no such array.
pub fn extract_symbol(json: &str) -> (symbol: Option<String>)
    ensures
        text_view(symbol) == symbol_of(json@),
{
    match parse_array(json) {
        Ok(items) => first_symbol(&items),
        Err(_) => None,
    }
}

} // verus!
