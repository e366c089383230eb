//! The exchange adapter: the one place that knows an exchange's channel names,
//! command grammar, channel limit and keepalive.

use vstd::prelude::*;
use vstd::string::*;
use crate::frames::{inspected, routing};
use crate::model::{request_views, texts, ChannelRequest, ConfigurationError, MessageType};
use crate::mxc::{lemma_spot_verb_substitution, lemma_swap_verb_substitution, replace_at};
use crate::mxc::{spot_command, spot_command_text, swap_command, swap_command_text};

verus! {

/// The exchanges and markets that have an adapter.
#[derive(Clone, Copy, Debug, PartialEq, Eq, Structural)]
pub enum Exchange {
    /// MXC spot market: socket.io framed commands.
    MxcSpot,
    /// MXC swap market: flat JSON commands.
    MxcSwap,
}

/// A client-initiated ping: its payload, and the interval in milliseconds at
/// which it is sent.
#[derive(Debug)]
pub struct Keepalive {
    pub interval_ms: u64,
    pub payload: String,
}

/// The adapter of one exchange market, with the limits that it was set up
/// with.
#[derive(Debug)]
pub struct ExchangeAdapter {
    pub exchange: Exchange,
    /// The most channels that one connection may subscribe to.
    pub limit: usize,
    /// The ping that the exchange asks its clients for, if it asks for one.
    pub ping: Option<Keepalive>,
}

/// The name under which the events of an exchange are published.
pub open spec fn exchange_name(exchange: Exchange) -> Seq<char> {
    "MXC"@
}

/// The channel that an exchange market names for a message kind, if it has
/// one.
pub open spec fn channel_name(exchange: Exchange, msg_type: MessageType) -> Option<Seq<char>> {
    match (exchange, msg_type) {
        (Exchange::MxcSpot, MessageType::Trade) => Some("symbol"@),
        (Exchange::MxcSpot, MessageType::L2Event) => Some("symbol"@),
        (Exchange::MxcSpot, MessageType::L2Snapshot) => Some("symbol"@),
        (Exchange::MxcSwap, MessageType::Trade) => Some("deal"@),
        (Exchange::MxcSwap, MessageType::Ticker) => Some("ticker"@),
        (Exchange::MxcSwap, MessageType::L2Event) => Some("depth"@),
        (Exchange::MxcSwap, MessageType::L2Snapshot) => Some("depth.full"@),
        _ => None,
    }
}

/// Whether the exchange market has a channel for every request.
pub open spec fn supports_all(exchange: Exchange, requests: Seq<(MessageType, Seq<char>)>) -> bool {
    forall|i: int| 0 <= i < requests.len() ==> channel_name(exchange, (#[trigger] requests[i]).0) is Some
}

/// The wire command of one request on its channel.
pub open spec fn command(
    exchange: Exchange,
    request: (MessageType, Seq<char>),
    subscribe: bool,
) -> Seq<char>
    recommends
        channel_name(exchange, request.0) is Some,
{
    match exchange {
        Exchange::MxcSpot => spot_command(
            channel_name(exchange, request.0).unwrap(),
            request.1,
            subscribe,
        ),
        Exchange::MxcSwap => swap_command(
            channel_name(exchange, request.0).unwrap(),
            request.1,
            subscribe,
        ),
    }
}

/// The wire commands of a sequence of requests: one for each, in order.
pub open spec fn commands(
    exchange: Exchange,
    requests: Seq<(MessageType, Seq<char>)>,
    subscribe: bool,
) -> Seq<Seq<char>> {
    Seq::new(requests.len(), |i: int| command(exchange, requests[i], subscribe))
}

/// Where the verb stands in a command of the exchange market.
pub open spec fn verb_index(exchange: Exchange) -> int {
    match exchange {
        Exchange::MxcSpot => 4,
        Exchange::MxcSwap => 11,
    }
}

/// The unsubscribe command of a request is its subscribe command with the
/// verb `sub` replaced by `unsub`: both address the same channel and symbol.
pub proof fn lemma_unsubscribe_mirrors_subscribe(exchange: Exchange, request: (MessageType, Seq<char>))
    ensures
        command(exchange, request, true).subrange(verb_index(exchange), verb_index(exchange) + 3)
            == "sub"@,
        replace_at(command(exchange, request, true), verb_index(exchange), 3, "unsub"@) == command(
            exchange,
            request,
            false,
        ),
{
    let channel = channel_name(exchange, request.0).unwrap();
    match exchange {
        Exchange::MxcSpot => lemma_spot_verb_substitution(channel, request.1),
        Exchange::MxcSwap => lemma_swap_verb_substitution(channel, request.1),
    }
}

impl Exchange {
    /// The name under which events of this exchange are published.
    pub fn name(&self) -> (name: &'static str)
        ensures
            name@ == exchange_name(*self),
    {
        crate::mxc::EXCHANGE_NAME
    }

    /// The channel that this exchange market names for a message kind.
    pub fn channel(&self, msg_type: MessageType) -> (name: Option<&'static str>)
        ensures
            name is Some <==> channel_name(*self, msg_type) is Some,
            name matches Some(n) ==> Some(n@) == channel_name(*self, msg_type),
    {
        match (*self, msg_type) {
            (Exchange::MxcSpot, MessageType::Trade) => Some("symbol"),
            (Exchange::MxcSpot, MessageType::L2Event) => Some("symbol"),
            (Exchange::MxcSpot, MessageType::L2Snapshot) => Some("symbol"),
            (Exchange::MxcSwap, MessageType::Trade) => Some("deal"),
            (Exchange::MxcSwap, MessageType::Ticker) => Some("ticker"),
            (Exchange::MxcSwap, MessageType::L2Event) => Some("depth"),
            (Exchange::MxcSwap, MessageType::L2Snapshot) => Some("depth.full"),
            _ => None,
        }
    }

    /// Renders one command for each request, in order. Fails where the
    /// exchange market has no channel for one of them.
    pub fn to_commands(&self, requests: &Vec<ChannelRequest>, subscribe: bool) -> (result: Result<
        Vec<String>,
        ConfigurationError,
    >)
        ensures
            result is Ok <==> supports_all(*self, request_views(requests@)),
            result matches Err(e) ==> e == ConfigurationError::UnsupportedChannel,
            result matches Ok(wire) ==> texts(wire@) == commands(
                *self,
                request_views(requests@),
                subscribe,
            ),
    {
        let ghost views = request_views(requests@);
        let mut wire: Vec<String> = Vec::new();
        let mut i: usize = 0;
        while i < requests.len()
            invariant
                i <= requests@.len(),
                views == request_views(requests@),
                supports_all(*self, views.subrange(0, i as int)),
                texts(wire@) == commands(*self, views.subrange(0, i as int), subscribe),
            decreases requests@.len() - i,
        {
            let request = &requests[i];
            assert(views[i as int] == request@);
            let text = match self.channel(request.message_type) {
                Some(name) => match self {
                    Exchange::MxcSpot => spot_command_text(name, request.symbol.as_str(), subscribe),
                    Exchange::MxcSwap => swap_command_text(name, request.symbol.as_str(), subscribe),
                },
                None => {
                    return Err(ConfigurationError::UnsupportedChannel);
                },
            };
            let ghost before = wire@;
            wire.push(text);
            proof {
                let next = views.subrange(0, i + 1);
                assert(next =~= views.subrange(0, i as int).push(views[i as int]));
                assert forall|j: int| 0 <= j < next.len() implies channel_name(
                    *self,
                    (#[trigger] next[j]).0,
                ) is Some by {
                    if j < i {
                        assert(next[j] == views.subrange(0, i as int)[j]);
                    }
                }
                assert(texts(wire@) =~= texts(before).push(text@));
                assert(commands(*self, next, subscribe) =~= commands(
                    *self,
                    views.subrange(0, i as int),
                    subscribe,
                ).push(command(*self, views[i as int], subscribe)));
            }
            i = i + 1;
        }
        assert(views.subrange(0, i as int) =~= views);
        Ok(wire)
    }
}

impl Keepalive {
    /// A copy with the same interval and payload.
    pub fn duplicate(&self) -> (copy: Self)
        ensures
            copy == *self,
    {
        Keepalive { interval_ms: self.interval_ms, payload: self.payload.clone() }
    }
}

impl ExchangeAdapter {
    /// An adapter for `exchange` that allows `limit` channels on a connection
    /// and sends the ping `ping`, if any.
    pub fn new(exchange: Exchange, limit: usize, ping: Option<Keepalive>) -> (adapter: Self)
        ensures
            adapter == (ExchangeAdapter { exchange, limit, ping }),
    {
        ExchangeAdapter { exchange, limit, ping }
    }

    /// A copy with the same exchange, limit and ping.
    pub fn duplicate(&self) -> (copy: Self)
        ensures
            copy == *self,
    {
        let ping = match &self.ping {
            Some(k) => Some(k.duplicate()),
            None => None,
        };
        ExchangeAdapter { exchange: self.exchange, limit: self.limit, ping }
    }

    /// The most channels that one connection may subscribe to.
    pub fn channel_limit(&self) -> (limit: usize)
        ensures
            limit == self.limit,
    {
        self.limit
    }

    /// The subscribe commands of the requests, one for each, in order.
    pub fn to_subscribe_command(&self, requests: &Vec<ChannelRequest>) -> (result: Result<
        Vec<String>,
        ConfigurationError,
    >)
        ensures
            result is Ok <==> supports_all(self.exchange, request_views(requests@)),
            result matches Err(e) ==> e == ConfigurationError::UnsupportedChannel,
            result matches Ok(wire) ==> texts(wire@) == commands(
                self.exchange,
                request_views(requests@),
                true,
            ),
    {
        self.exchange.to_commands(requests, true)
    }

    /// The unsubscribe commands of the requests: the subscribe commands with
    /// the other verb.
    pub fn to_unsubscribe_command(&self, requests: &Vec<ChannelRequest>) -> (result: Result<
        Vec<String>,
        ConfigurationError,
    >)
        ensures
            result is Ok <==> supports_all(self.exchange, request_views(requests@)),
            result matches Err(e) ==> e == ConfigurationError::UnsupportedChannel,
            result matches Ok(wire) ==> texts(wire@) == commands(
                self.exchange,
                request_views(requests@),
                false,
            ),
    {
        self.exchange.to_commands(requests, false)
    }

    /// The routing data of a frame of a crawl for `msg_type`: `None` for
    /// control frames and for frames that cannot be read.
    pub fn classify(&self, frame: &str, msg_type: MessageType) -> (found: Option<
        (MessageType, String),
    >)
        ensures
            match found {
                Some(pair) => routing(inspected(frame@, msg_type)) == Some((pair.0, pair.1@)),
                None => routing(inspected(frame@, msg_type)) is None,
            },
    {
        crate::frames::classify(frame, msg_type)
    }

    /// The ping that the exchange asks for: its interval in milliseconds and
    /// its payload.
    pub fn keepalive(&self) -> (ping: Option<(u64, String)>)
        ensures
            match ping {
                Some(p) => self.ping matches Some(k) && p.0 == k.interval_ms && p.1@ == k.payload@,
                None => self.ping is None,
            },
    {
        match &self.ping {
            Some(k) => Some((k.interval_ms, k.payload.clone())),
            None => None,
        }
    }
}

} // verus!
