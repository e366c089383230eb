//! The normaliser: it wraps a raw frame into a canonical event.

use vstd::prelude::*;
use vstd::string::*;
use crate::model::{CanonicalEvent, EventView, MarketType, MessageType};

verus! {

/// Builds the canonical event of a frame. `received_at` is `now`, the time of
/// ingestion, and `raw` is the frame as it came.
pub fn normalize(
    exchange: &str,
    market_type: MarketType,
    msg_type: MessageType,
    symbol: String,
    raw_frame: String,
    now: u64,
) -> (event: CanonicalEvent)
    ensures
        event@ == (EventView {
            exchange: exchange@,
            market_type,
            msg_type,
            symbol: symbol@,
            received_at: now,
            raw: raw_frame@,
        }),
{
    CanonicalEvent {
        exchange: String::from_str(exchange),
        market_type,
        msg_type,
        symbol,
        received_at: now,
        raw: raw_frame,
    }
}

} // verus!
