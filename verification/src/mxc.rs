//! Wire grammars of the MXC exchange: the socket.io framed commands of its spot
//! market and the flat JSON commands of its swap market.

use vstd::prelude::*;
use vstd::string::*;
use crate::common_traits::OrderBookSnapshot;
use crate::model::texts;

verus! {

pub const EXCHANGE_NAME: &'static str = "MXC";

pub const SOCKETIO_PREFIX: &'static str = "42";

pub const SPOT_WEBSOCKET_URL: &'static str = "wss://wbs.mxc.com/socket.io/?EIO=3&transport=websocket";

pub const SWAP_WEBSOCKET_URL: &'static str = "wss://contract.mxc.com/ws";

/// The verb that a command carries.
pub open spec fn verb(subscribe: bool) -> Seq<char> {
    if subscribe {
        "sub"@
    } else {
        "unsub"@
    }
}

/// The least index at or after `from` that holds a colon; the length where
/// there is none.
pub open spec fn colon_at(s: Seq<char>, from: int) -> int
    decreases s.len() - from,
{
    if from < 0 || from >= s.len() {
        s.len() as int
    } else if s[from] == ':' {
        from
    } else {
        colon_at(s, from + 1)
    }
}

/// The channel name of a raw channel `<channel>:<pair>`: what stands before
/// the first colon.
pub open spec fn channel_of(raw: Seq<char>) -> Seq<char> {
    raw.subrange(0, colon_at(raw, 0))
}

/// The pair of a raw channel `<channel>:<pair>`: what stands between the
/// first colon and the next one, or the end.
pub open spec fn pair_of(raw: Seq<char>) -> Seq<char> {
    raw.subrange(colon_at(raw, 0) + 1, colon_at(raw, colon_at(raw, 0) + 1))
}

/// The raw channel of a channel name and a pair.
pub open spec fn raw_channel(channel: Seq<char>, pair: Seq<char>) -> Seq<char> {
    channel + ":"@ + pair
}

/// The socket.io framed command of the spot market.
pub open spec fn spot_command(channel: Seq<char>, pair: Seq<char>, subscribe: bool) -> Seq<char> {
    "42"@ + "[\""@ + verb(subscribe) + "."@ + channel + "\","@ + "{\"symbol\":\""@ + pair
        + "\"}]"@
}

/// The flat JSON command of the swap market.
pub open spec fn swap_command(channel: Seq<char>, pair: Seq<char>, subscribe: bool) -> Seq<char> {
    "{\"method\":\""@ + verb(subscribe) + "."@ + channel + "\","@ + "\"param\":{\"symbol\":\""@
        + pair + "\"}}"@
}

/// `text` with the `old_len` characters at `at` replaced by `new`.
pub open spec fn replace_at(text: Seq<char>, at: int, old_len: int, new: Seq<char>) -> Seq<char> {
    text.subrange(0, at) + new + text.subrange(at + old_len, text.len() as int)
}

/// `colon_at` lies between `from` and the length, holds a colon where it is an
/// index, and passes over no colon.
pub proof fn lemma_colon_at(s: Seq<char>, from: int)
    requires
        0 <= from <= s.len(),
    ensures
        from <= colon_at(s, from) <= s.len(),
        colon_at(s, from) < s.len() ==> s[colon_at(s, from)] == ':',
        forall|j: int| from <= j < colon_at(s, from) ==> s[j] != ':',
    decreases s.len() - from,
{
    if from < s.len() && s[from] != ':' {
        lemma_colon_at(s, from + 1);
    }
}

/// The index of the first colon at or after `from`, or the length.
pub fn find_colon(s: &str, from: usize) -> (r: usize)
    requires
        from <= s@.len(),
    ensures
        r == colon_at(s@, from as int),
        from <= r <= s@.len(),
{
    let n: usize = s.unicode_len();
    let mut i: usize = from;
    while i < n
        invariant
            from <= i <= n,
            n == s@.len(),
            colon_at(s@, from as int) == colon_at(s@, i as int),
        decreases n - i,
    {
        if s.get_char(i) == ':' {
            return i;
        }
        i = i + 1;
    }
    i
}

/// Renders the spot command for a channel name and a pair.
pub fn spot_command_text(channel: &str, pair: &str, subscribe: bool) -> (command: String)
    ensures
        command@ == spot_command(channel@, pair@, subscribe),
{
    let mut command = String::new();
    command.append(SOCKETIO_PREFIX);
    command.append("[\"");
    command.append(if subscribe { "sub" } else { "unsub" });
    command.append(".");
    command.append(channel);
    command.append("\",");
    command.append("{\"symbol\":\"");
    command.append(pair);
    command.append("\"}]");
    assert(command@ =~= spot_command(channel@, pair@, subscribe));
    command
}

/// Renders the swap command for a channel name and a pair.
pub fn swap_command_text(channel: &str, pair: &str, subscribe: bool) -> (command: String)
    ensures
        command@ == swap_command(channel@, pair@, subscribe),
{
    let mut command = String::new();
    command.append("{\"method\":\"");
    command.append(if subscribe { "sub" } else { "unsub" });
    command.append(".");
    command.append(channel);
    command.append("\",");
    command.append("\"param\":{\"symbol\":\"");
    command.append(pair);
    command.append("\"}}");
    assert(command@ =~= swap_command(channel@, pair@, subscribe));
    command
}

/// Joins a channel name and a pair into a raw channel.
pub fn to_raw_channel(channel: &str, pair: &str) -> (raw: String)
    ensures
        raw@ == raw_channel(channel@, pair@),
{
    let mut raw = String::new();
    raw.append(channel);
    raw.append(":");
    raw.append(pair);
    assert(raw@ =~= raw_channel(channel@, pair@));
    raw
}

/// Splits a raw channel into its channel name and its pair.
pub fn split_channel<'a>(ch: &'a str) -> (parts: (&'a str, &'a str))
    requires
        ch@.contains(':'),
    ensures
        parts.0@ == channel_of(ch@),
        parts.1@ == pair_of(ch@),
{
    let n: usize = ch.unicode_len();
    let first: usize = find_colon(ch, 0);
    proof {
        lemma_colon_at(ch@, 0);
    }
    assert(first < n);
    let second: usize = find_colon(ch, first + 1);
    (ch.substring_char(0, first), ch.substring_char(first + 1, second))
}

/// `symbol:BTC_USDT` becomes `42["sub.symbol",{"symbol":"BTC_USDT"}]`.
pub fn spot_channel_to_command(ch: &str, subscribe: bool) -> (command: String)
    requires
        ch@.contains(':'),
    ensures
        command@ == spot_command(channel_of(ch@), pair_of(ch@), subscribe),
{
    let (channel, pair) = split_channel(ch);
    spot_command_text(channel, pair, subscribe)
}

/// `deal:BTC_USDT` becomes `{"method":"sub.deal","param":{"symbol":"BTC_USDT"}}`.
pub fn swap_channel_to_command(ch: &str, subscribe: bool) -> (command: String)
    requires
        ch@.contains(':'),
    ensures
        command@ == swap_command(channel_of(ch@), pair_of(ch@), subscribe),
{
    let (channel, pair) = split_channel(ch);
    swap_command_text(channel, pair, subscribe)
}

/// One spot command for each raw channel, in the order given.
pub fn spot_serialize_command(channels: &[String], subscribe: bool) -> (commands: Vec<String>)
    requires
        forall|i: int| 0 <= i < channels@.len() ==> (#[trigger] channels@[i])@.contains(':'),
    ensures
        commands@.len() == channels@.len(),
        forall|i: int|
            0 <= i < channels@.len() ==> (#[trigger] commands@[i])@ == spot_command(
                channel_of(channels@[i]@),
                pair_of(channels@[i]@),
                subscribe,
            ),
{
    let mut commands = Vec::<String>::new();
    let mut k: usize = 0;
    while k < channels.len()
        invariant
            k <= channels@.len(),
            commands@.len() == k,
            forall|i: int| 0 <= i < channels@.len() ==> (#[trigger] channels@[i])@.contains(':'),
            forall|i: int|
                0 <= i < k ==> (#[trigger] commands@[i])@ == spot_command(
                    channel_of(channels@[i]@),
                    pair_of(channels@[i]@),
                    subscribe,
                ),
        decreases channels@.len() - k,
    {
        let command = spot_channel_to_command(channels[k].as_str(), subscribe);
        commands.push(command);
        k = k + 1;
    }
    commands
}

/// One swap command for each raw channel, in the order given.
pub fn swap_serialize_command(channels: &[String], subscribe: bool) -> (commands: Vec<String>)
    requires
        forall|i: int| 0 <= i < channels@.len() ==> (#[trigger] channels@[i])@.contains(':'),
    ensures
        commands@.len() == channels@.len(),
        forall|i: int|
            0 <= i < channels@.len() ==> (#[trigger] commands@[i])@ == swap_command(
                channel_of(channels@[i]@),
                pair_of(channels@[i]@),
                subscribe,
            ),
{
    let mut commands = Vec::<String>::new();
    let mut k: usize = 0;
    while k < channels.len()
        invariant
            k <= channels@.len(),
            commands@.len() == k,
            forall|i: int| 0 <= i < channels@.len() ==> (#[trigger] channels@[i])@.contains(':'),
            forall|i: int|
                0 <= i < k ==> (#[trigger] commands@[i])@ == swap_command(
                    channel_of(channels@[i]@),
                    pair_of(channels@[i]@),
                    subscribe,
                ),
        decreases channels@.len() - k,
    {
        let command = swap_channel_to_command(channels[k].as_str(), subscribe);
        commands.push(command);
        k = k + 1;
    }
    commands
}

/// A raw channel made of a channel name without a colon and a pair without a
/// colon splits back into the two.
pub proof fn lemma_raw_channel_splits(channel: Seq<char>, pair: Seq<char>)
    requires
        !channel.contains(':'),
        !pair.contains(':'),
    ensures
        raw_channel(channel, pair).contains(':'),
        channel_of(raw_channel(channel, pair)) == channel,
        pair_of(raw_channel(channel, pair)) == pair,
{
    reveal_strlit(":");
    let raw = raw_channel(channel, pair);
    let c = channel.len() as int;
    assert(raw.len() == c + 1 + pair.len());
    assert(raw[c] == ':');
    assert forall|j: int| 0 <= j < raw.len() && j != c implies raw[j] != ':' by {
        if j < c {
            assert(raw[j] == channel[j]);
            assert(channel.contains(channel[j]));
        } else {
            assert(raw[j] == pair[j - c - 1]);
            assert(pair.contains(pair[j - c - 1]));
        }
    }
    lemma_colon_at(raw, 0);
    lemma_colon_at(raw, c + 1);
    assert(colon_at(raw, 0) == c);
    assert(colon_at(raw, c + 1) == raw.len());
    assert(channel_of(raw) =~= channel);
    assert(pair_of(raw) =~= pair);
}

/// In the spot grammar the subscribe command and the unsubscribe command of a
/// channel and a pair differ in the verb alone: the verb `sub` stands at
/// index 4 of the subscribe command, and putting `unsub` in its place gives
/// the unsubscribe command.
pub proof fn lemma_spot_verb_substitution(channel: Seq<char>, pair: Seq<char>)
    ensures
        spot_command(channel, pair, true).subrange(4, 7) == "sub"@,
        replace_at(spot_command(channel, pair, true), 4, 3, "unsub"@) == spot_command(
            channel,
            pair,
            false,
        ),
{
    reveal_strlit("42");
    reveal_strlit("[\"");
    reveal_strlit("sub");
    reveal_strlit("unsub");
    let sub = spot_command(channel, pair, true);
    let unsub = spot_command(channel, pair, false);
    let rest = "."@ + channel + "\","@ + "{\"symbol\":\""@ + pair + "\"}]"@;
    assert(sub =~= "42"@ + "[\""@ + "sub"@ + rest);
    assert(unsub =~= "42"@ + "[\""@ + "unsub"@ + rest);
    assert(sub.subrange(4, 7) =~= "sub"@);
    assert(sub.subrange(0, 4) =~= "42"@ + "[\""@);
    assert(sub.subrange(7, sub.len() as int) =~= rest);
    assert(replace_at(sub, 4, 3, "unsub"@) =~= unsub);
}

/// The same law for the swap grammar, where the verb stands at index 11.
pub proof fn lemma_swap_verb_substitution(channel: Seq<char>, pair: Seq<char>)
    ensures
        swap_command(channel, pair, true).subrange(11, 14) == "sub"@,
        replace_at(swap_command(channel, pair, true), 11, 3, "unsub"@) == swap_command(
            channel,
            pair,
            false,
        ),
{
    reveal_strlit("{\"method\":\"");
    reveal_strlit("sub");
    reveal_strlit("unsub");
    let sub = swap_command(channel, pair, true);
    let unsub = swap_command(channel, pair, false);
    let rest = "."@ + channel + "\","@ + "\"param\":{\"symbol\":\""@ + pair + "\"}}"@;
    assert(sub =~= "{\"method\":\""@ + "sub"@ + rest);
    assert(unsub =~= "{\"method\":\""@ + "unsub"@ + rest);
    assert(sub.subrange(11, 14) =~= "sub"@);
    assert(sub.subrange(0, 11) =~= "{\"method\":\""@);
    assert(sub.subrange(14, sub.len() as int) =~= rest);
    assert(replace_at(sub, 11, 3, "unsub"@) =~= unsub);
}

/// The spot commands of a sequence of raw channels: one for each, in order.
pub open spec fn spot_commands(channels: Seq<String>, subscribe: bool) -> Seq<Seq<char>> {
    Seq::new(
        channels.len(),
        |i: int| spot_command(channel_of(channels[i]@), pair_of(channels[i]@), subscribe),
    )
}

/// The swap commands of a sequence of raw channels: one for each, in order.
pub open spec fn swap_commands(channels: Seq<String>, subscribe: bool) -> Seq<Seq<char>> {
    Seq::new(
        channels.len(),
        |i: int| swap_command(channel_of(channels[i]@), pair_of(channels[i]@), subscribe),
    )
}

/// The raw channels of `channel` for a sequence of pairs.
pub open spec fn raw_channels(channel: Seq<char>, pairs: Seq<String>) -> Seq<Seq<char>> {
    Seq::new(pairs.len(), |i: int| raw_channel(channel, pairs[i]@))
}

/// Every string of the sequence holds a colon.
pub open spec fn all_raw(channels: Seq<String>) -> bool {
    forall|i: int| 0 <= i < channels.len() ==> (#[trigger] channels[i])@.contains(':')
}

/// One raw channel of `channel` for each pair, in order. Each holds a colon.
pub fn to_raw_channels(channel: &str, pairs: &[String]) -> (channels: Vec<String>)
    ensures
        channels@.len() == pairs@.len(),
        texts(channels@) == raw_channels(channel@, pairs@),
        all_raw(channels@),
{
    let mut channels: Vec<String> = Vec::new();
    let mut k: usize = 0;
    while k < pairs.len()
        invariant
            k <= pairs@.len(),
            channels@.len() == k,
            forall|i: int| 0 <= i < k ==> (#[trigger] channels@[i])@ == raw_channel(channel@, pairs@[i]@),
        decreases pairs@.len() - k,
    {
        channels.push(to_raw_channel(channel, pairs[k].as_str()));
        k = k + 1;
    }
    proof {
        reveal_strlit(":");
        assert(texts(channels@) =~= raw_channels(channel@, pairs@));
        assert forall|i: int| 0 <= i < channels@.len() implies (#[trigger] channels@[i])@.contains(
            ':',
        ) by {
            assert(channels@[i]@[channel@.len() as int] == ':');
        }
    }
    channels
}

/// The client of the MXC spot market. It holds the commands that wait to be
/// sent on its connection.
#[derive(Debug)]
pub struct MXCSpotWSClient {
    pub outbox: Vec<String>,
}

/// The client of the MXC swap market. It holds the commands that wait to be
/// sent on its connection.
#[derive(Debug)]
pub struct MXCSwapWSClient {
    pub outbox: Vec<String>,
}

impl MXCSpotWSClient {
    /// A client with nothing to send.
    pub fn new() -> (client: Self)
        ensures
            client.outbox@.len() == 0,
    {
        MXCSpotWSClient { outbox: Vec::new() }
    }

    /// Where the client connects to.
    pub fn url(&self) -> (url: &'static str)
        ensures
            url@ == SPOT_WEBSOCKET_URL@,
    {
        SPOT_WEBSOCKET_URL
    }

    /// Queues the subscribe commands of the raw channels.
    pub fn subscribe(&mut self, channels: &[String])
        requires
            all_raw(channels@),
        ensures
            texts(final(self).outbox@) == texts(old(self).outbox@) + spot_commands(channels@, true),
    {
        let ghost before = self.outbox@;
        let mut commands = spot_serialize_command(channels, true);
        self.outbox.append(&mut commands);
        assert(texts(self.outbox@) =~= texts(before) + spot_commands(channels@, true));
    }

    /// Queues the unsubscribe commands of the raw channels.
    pub fn unsubscribe(&mut self, channels: &[String])
        requires
            all_raw(channels@),
        ensures
            texts(final(self).outbox@) == texts(old(self).outbox@) + spot_commands(channels@, false),
    {
        let ghost before = self.outbox@;
        let mut commands = spot_serialize_command(channels, false);
        self.outbox.append(&mut commands);
        assert(texts(self.outbox@) =~= texts(before) + spot_commands(channels@, false));
    }

    /// Hands out the queued commands, in the order they were queued, and
    /// leaves the queue empty.
    pub fn take_commands(&mut self) -> (commands: Vec<String>)
        ensures
            commands@ == old(self).outbox@,
            final(self).outbox@.len() == 0,
    {
        let mut commands: Vec<String> = Vec::new();
        commands.append(&mut self.outbox);
        commands
    }
}

impl MXCSwapWSClient {
    /// A client with nothing to send.
    pub fn new() -> (client: Self)
        ensures
            client.outbox@.len() == 0,
    {
        MXCSwapWSClient { outbox: Vec::new() }
    }

    /// Where the client connects to.
    pub fn url(&self) -> (url: &'static str)
        ensures
            url@ == SWAP_WEBSOCKET_URL@,
    {
        SWAP_WEBSOCKET_URL
    }

    /// Queues the subscribe commands of the raw channels.
    pub fn subscribe(&mut self, channels: &[String])
        requires
            all_raw(channels@),
        ensures
            texts(final(self).outbox@) == texts(old(self).outbox@) + swap_commands(channels@, true),
    {
        let ghost before = self.outbox@;
        let mut commands = swap_serialize_command(channels, true);
        self.outbox.append(&mut commands);
        assert(texts(self.outbox@) =~= texts(before) + swap_commands(channels@, true));
    }

    /// Queues the unsubscribe commands of the raw channels.
    pub fn unsubscribe(&mut self, channels: &[String])
        requires
            all_raw(channels@),
        ensures
            texts(final(self).outbox@) == texts(old(self).outbox@) + swap_commands(channels@, false),
    {
        let ghost before = self.outbox@;
        let mut commands = swap_serialize_command(channels, false);
        self.outbox.append(&mut commands);
        assert(texts(self.outbox@) =~= texts(before) + swap_commands(channels@, false));
    }

    /// Hands out the queued commands, in the order they were queued, and
    /// leaves the queue empty.
    pub fn take_commands(&mut self) -> (commands: Vec<String>)
        ensures
            commands@ == old(self).outbox@,
            final(self).outbox@.len() == 0,
    {
        let mut commands: Vec<String> = Vec::new();
        commands.append(&mut self.outbox);
        commands
    }
}

impl OrderBookSnapshot for MXCSpotWSClient {
    open spec fn pending(&self) -> Seq<Seq<char>> {
        texts(self.outbox@)
    }

    open spec fn snapshot_command(pair: Seq<char>) -> Seq<char> {
        let raw = raw_channel("symbol"@, pair);
        spot_command(channel_of(raw), pair_of(raw), true)
    }

    fn subscribe_orderbook_snapshot(&mut self, pairs: &[String]) {
        let channels = to_raw_channels("symbol", pairs);
        self.subscribe(channels.as_slice());
        assert(spot_commands(channels@, true) =~= Seq::new(
            pairs@.len(),
            |i: int| Self::snapshot_command(pairs@[i]@),
        )) by {
            assert forall|i: int| 0 <= i < pairs@.len() implies channels@[i]@ == raw_channel(
                "symbol"@,
                pairs@[i]@,
            ) by {
                assert(texts(channels@)[i] == channels@[i]@);
            }
        }
    }
}

impl OrderBookSnapshot for MXCSwapWSClient {
    open spec fn pending(&self) -> Seq<Seq<char>> {
        texts(self.outbox@)
    }

    open spec fn snapshot_command(pair: Seq<char>) -> Seq<char> {
        let raw = raw_channel("depth.full"@, pair);
        swap_command(channel_of(raw), pair_of(raw), true)
    }

    fn subscribe_orderbook_snapshot(&mut self, pairs: &[String]) {
        let channels = to_raw_channels("depth.full", pairs);
        self.subscribe(channels.as_slice());
        assert(swap_commands(channels@, true) =~= Seq::new(
            pairs@.len(),
            |i: int| Self::snapshot_command(pairs@[i]@),
        )) by {
            assert forall|i: int| 0 <= i < pairs@.len() implies channels@[i]@ == raw_channel(
                "depth.full"@,
                pairs@[i]@,
            ) by {
                assert(texts(channels@)[i] == channels@[i]@);
            }
        }
    }
}

} // verus!
