//! The data that the engine passes around: market and message kinds, channel
//! requests, connection groups, canonical events and the configuration error.

use vstd::prelude::*;

verus! {

/// The kind of market that a crawl is made on.
#[derive(Clone, Copy, Debug, PartialEq, Eq, Structural)]
pub enum MarketType {
    Unknown,
    Spot,
    LinearFuture,
    InverseFuture,
    LinearSwap,
    InverseSwap,
    AmericanOption,
    EuropeanOption,
    QuantoFuture,
    QuantoSwap,
    Move,
    BVOL,
}

/// The name of a market type in snake case, as it is written in
/// configuration and in published events.
pub open spec fn market_type_name(market_type: MarketType) -> Seq<char> {
    match market_type {
        MarketType::Unknown => "unknown"@,
        MarketType::Spot => "spot"@,
        MarketType::LinearFuture => "linear_future"@,
        MarketType::InverseFuture => "inverse_future"@,
        MarketType::LinearSwap => "linear_swap"@,
        MarketType::InverseSwap => "inverse_swap"@,
        MarketType::AmericanOption => "american_option"@,
        MarketType::EuropeanOption => "european_option"@,
        MarketType::QuantoFuture => "quanto_future"@,
        MarketType::QuantoSwap => "quanto_swap"@,
        MarketType::Move => "move"@,
        MarketType::BVOL => "bvol"@,
    }
}

impl MarketType {
    /// The name of the market type in snake case.
    pub fn name(&self) -> (name: &'static str)
        ensures
            name@ == market_type_name(*self),
    {
        match self {
            MarketType::Unknown => "unknown",
            MarketType::Spot => "spot",
            MarketType::LinearFuture => "linear_future",
            MarketType::InverseFuture => "inverse_future",
            MarketType::LinearSwap => "linear_swap",
            MarketType::InverseSwap => "inverse_swap",
            MarketType::AmericanOption => "american_option",
            MarketType::EuropeanOption => "european_option",
            MarketType::QuantoFuture => "quanto_future",
            MarketType::QuantoSwap => "quanto_swap",
            MarketType::Move => "move",
            MarketType::BVOL => "bvol",
        }
    }
}

/// The kind of message that a channel carries.
#[derive(Clone, Copy, Debug, PartialEq, Eq, Structural)]
pub enum MessageType {
    Trade,
    Ticker,
    BBO,
    L2Event,
    L3Event,
    L2Snapshot,
    Other,
}

/// Why a crawl was refused before any connection was opened.
#[derive(Clone, Copy, Debug, PartialEq, Eq, Structural)]
pub enum ConfigurationError {
    /// No symbol was given.
    EmptySymbols,
    /// The channel limit of a connection is zero.
    ZeroChannelLimit,
    /// The exchange has no channel for this market and message kind.
    UnsupportedChannel,
}

/// The state of a connection session.
#[derive(Clone, Copy, Debug, PartialEq, Eq, Structural)]
pub enum SessionState {
    Connecting,
    Subscribing,
    Streaming,
    Reconnecting,
    Closed,
}

/// The texts of a sequence of strings.
pub open spec fn texts(strings: Seq<String>) -> Seq<Seq<char>> {
    Seq::new(strings.len(), |i: int| strings[i]@)
}

/// The unit of subscription: one message kind for one symbol.
#[derive(Debug)]
pub struct ChannelRequest {
    pub message_type: MessageType,
    pub symbol: String,
}

impl View for ChannelRequest {
    type V = (MessageType, Seq<char>);

    open spec fn view(&self) -> (MessageType, Seq<char>) {
        (self.message_type, self.symbol@)
    }
}

impl ChannelRequest {
    pub fn new(message_type: MessageType, symbol: String) -> (request: Self)
        ensures
            request@ == (message_type, symbol@),
    {
        ChannelRequest { message_type, symbol }
    }

    /// A copy with the same message kind and symbol.
    pub fn duplicate(&self) -> (copy: Self)
        ensures
            copy@ == self@,
    {
        ChannelRequest { message_type: self.message_type, symbol: self.symbol.clone() }
    }
}

/// The views of a sequence of requests.
pub open spec fn request_views(requests: Seq<ChannelRequest>) -> Seq<(MessageType, Seq<char>)> {
    Seq::new(requests.len(), |i: int| requests[i]@)
}

/// The requests assigned to one connection, in order.
#[derive(Debug)]
pub struct ConnectionGroup {
    pub requests: Vec<ChannelRequest>,
}

impl View for ConnectionGroup {
    type V = Seq<(MessageType, Seq<char>)>;

    open spec fn view(&self) -> Seq<(MessageType, Seq<char>)> {
        request_views(self.requests@)
    }
}

impl ConnectionGroup {
    /// A copy that holds the same requests in the same order.
    pub fn duplicate(&self) -> (copy: Self)
        ensures
            copy@ == self@,
    {
        let mut requests: Vec<ChannelRequest> = Vec::new();
        let mut i: usize = 0;
        while i < self.requests.len()
            invariant
                i <= self.requests@.len(),
                request_views(requests@) == self@.subrange(0, i as int),
            decreases self.requests@.len() - i,
        {
            let ghost before = requests@;
            requests.push(self.requests[i].duplicate());
            assert(request_views(requests@) =~= request_views(before).push(self.requests@[i as int]@));
            assert(self@.subrange(0, i + 1) =~= self@.subrange(0, i as int).push(self@[i as int]));
            i = i + 1;
        }
        assert(self@.subrange(0, i as int) =~= self@);
        ConnectionGroup { requests }
    }
}

/// The views of a sequence of groups.
pub open spec fn group_views(groups: Seq<ConnectionGroup>) -> Seq<Seq<(MessageType, Seq<char>)>> {
    Seq::new(groups.len(), |i: int| groups[i]@)
}

/// The exchange-agnostic record handed to the caller.
#[derive(Debug)]
pub struct CanonicalEvent {
    pub exchange: String,
    pub market_type: MarketType,
    pub msg_type: MessageType,
    pub symbol: String,
    pub received_at: u64,
    pub raw: String,
}

/// What a canonical event holds, as plain values.
pub struct EventView {
    pub exchange: Seq<char>,
    pub market_type: MarketType,
    pub msg_type: MessageType,
    pub symbol: Seq<char>,
    pub received_at: u64,
    pub raw: Seq<char>,
}

impl View for CanonicalEvent {
    type V = EventView;

    open spec fn view(&self) -> EventView {
        EventView {
            exchange: self.exchange@,
            market_type: self.market_type,
            msg_type: self.msg_type,
            symbol: self.symbol@,
            received_at: self.received_at,
            raw: self.raw@,
        }
    }
}

} // verus!
