//! The connection session: the decisions of one connection, as a state
//! machine. The caller owns the transport: it reports what happened on it and
//! carries out what the session answers.

use vstd::prelude::*;
use vstd::string::*;
use crate::adapter::{commands, exchange_name, supports_all, ExchangeAdapter};
use crate::frames::{inspect, inspected, routing, FrameKind, FrameKindView};
use crate::model::{texts, CanonicalEvent, ConnectionGroup, EventView, MarketType, MessageType, SessionState};
use crate::normalizer::normalize;

verus! {

/// The delay before reconnect attempt number `attempt` (from 0): `base`
/// doubled once for each earlier attempt, and never more than `cap`.
pub open spec fn backoff_delay(base: int, cap: int, attempt: int) -> int
    decreases attempt,
{
    if attempt <= 0 {
        if base < cap {
            base
        } else {
            cap
        }
    } else {
        let doubled = 2 * backoff_delay(base, cap, attempt - 1);
        if doubled < cap {
            doubled
        } else {
            cap
        }
    }
}

/// Whether a connection has been silent for twice the ping interval.
pub open spec fn idle_too_long(last_traffic_at: int, now: int, interval_ms: int) -> bool {
    now - last_traffic_at >= 2 * interval_ms
}

/// Once the delay stays the same from one attempt to the next, it stays so
/// for every later attempt.
pub proof fn lemma_backoff_settles(base: int, cap: int, from: int, attempt: int)
    requires
        0 <= from <= attempt,
        backoff_delay(base, cap, from + 1) == backoff_delay(base, cap, from),
    ensures
        backoff_delay(base, cap, attempt) == backoff_delay(base, cap, from),
    decreases attempt - from,
{
    if attempt > from {
        lemma_backoff_settles(base, cap, from, attempt - 1);
        if attempt - 1 > from {
            lemma_backoff_settles(base, cap, from, attempt - 2);
        }
    }
}

/// The delay never exceeds the cap, and no attempt waits less than the one
/// before it.
pub proof fn lemma_backoff_capped(base: int, cap: int, attempt: int)
    requires
        0 <= base,
        0 <= cap,
        0 <= attempt,
    ensures
        0 <= backoff_delay(base, cap, attempt) <= cap,
        backoff_delay(base, cap, attempt) <= backoff_delay(base, cap, attempt + 1),
    decreases attempt,
{
    if attempt > 0 {
        lemma_backoff_capped(base, cap, attempt - 1);
    }
}

/// Computes the delay before reconnect attempt number `attempt`.
pub fn compute_backoff(base: u64, cap: u64, attempt: u64) -> (delay: u64)
    ensures
        delay == backoff_delay(base as int, cap as int, attempt as int),
{
    let mut delay: u64 = if base < cap { base } else { cap };
    let mut i: u64 = 0;
    while i < attempt && delay < cap && delay > 0
        invariant
            i <= attempt,
            delay <= cap,
            delay == backoff_delay(base as int, cap as int, i as int),
        decreases cap - delay,
    {
        if delay > cap - delay {
            delay = cap;
        } else {
            let doubled: u64 = delay + delay;
            delay = if doubled < cap { doubled } else { cap };
        }
        i = i + 1;
    }
    proof {
        if i < attempt {
            assert(backoff_delay(base as int, cap as int, i + 1) == delay);
            lemma_backoff_settles(base as int, cap as int, i as int, attempt as int);
        }
    }
    delay
}

/// What a session asks for when its ping timer fires.
#[derive(Debug)]
pub enum TickAction {
    /// Nothing to do.
    Idle,
    /// Send this ping payload.
    Ping(String),
    /// The connection was silent too long: drop it, wait this many
    /// milliseconds, and open it again.
    Reconnect(u64),
}

/// The session of one connection.
#[derive(Debug)]
pub struct ConnectionSession {
    pub adapter: ExchangeAdapter,
    pub market_type: MarketType,
    pub msg_type: MessageType,
    pub group: ConnectionGroup,
    pub state: SessionState,
    /// The delay before the first reconnect attempt, in milliseconds.
    pub backoff_base_ms: u64,
    /// The longest delay before a reconnect attempt, in milliseconds.
    pub backoff_cap_ms: u64,
    /// The reconnect attempts made since the session last streamed.
    pub attempts: u64,
    /// When the connection last carried traffic.
    pub last_traffic_at: u64,
    /// How many frames were dropped as malformed.
    pub malformed_frames: u64,
}

impl ConnectionSession {
    /// The group fits the channel limit of the exchange, and the exchange has
    /// a channel for each of its requests.
    pub open spec fn wf(&self) -> bool {
        &&& self.group@.len() <= self.adapter.limit
        &&& supports_all(self.adapter.exchange, self.group@)
    }

    /// Whether two sessions were set up alike: the same adapter, market,
    /// message kind, group and backoff.
    pub open spec fn same_setup(&self, other: &ConnectionSession) -> bool {
        &&& self.adapter == other.adapter
        &&& self.market_type == other.market_type
        &&& self.msg_type == other.msg_type
        &&& self.group@ == other.group@
        &&& self.backoff_base_ms == other.backoff_base_ms
        &&& self.backoff_cap_ms == other.backoff_cap_ms
    }

    /// The commands that the session sends whenever its transport has opened:
    /// the subscribe commands of its whole group.
    pub open spec fn subscription(&self) -> Seq<Seq<char>> {
        commands(self.adapter.exchange, self.group@, true)
    }

    /// The event that a data frame becomes.
    pub open spec fn event_of(&self, msg_type: MessageType, symbol: Seq<char>, raw: Seq<char>, now: u64) -> EventView {
        EventView {
            exchange: exchange_name(self.adapter.exchange),
            market_type: self.market_type,
            msg_type,
            symbol,
            received_at: now,
            raw,
        }
    }

    /// What routing a frame of kind `kind` does to a session: `after` is the
    /// session afterwards and `event` what it emits. The state and the setup
    /// stay. A streaming session notes the time of the traffic, turns a data
    /// frame into its event, drops a control frame, and counts and drops a
    /// malformed one. A session in any other state drops the frame and
    /// changes nothing.
    pub open spec fn routed(
        &self,
        kind: FrameKindView,
        raw: Seq<char>,
        now: u64,
        after: &ConnectionSession,
        event: Option<CanonicalEvent>,
    ) -> bool {
        &&& after.same_setup(self)
        &&& after.state == self.state
        &&& after.attempts == self.attempts
        &&& self.state != SessionState::Streaming ==> {
            &&& event is None
            &&& after.last_traffic_at == self.last_traffic_at
            &&& after.malformed_frames == self.malformed_frames
        }
        &&& self.state == SessionState::Streaming ==> {
            &&& after.last_traffic_at == now
            &&& match kind {
                FrameKindView::Data { msg_type, symbol } => {
                    &&& event matches Some(e) && e@ == self.event_of(msg_type, symbol, raw, now)
                    &&& after.malformed_frames == self.malformed_frames
                },
                FrameKindView::Control => {
                    &&& event is None
                    &&& after.malformed_frames == self.malformed_frames
                },
                FrameKindView::Malformed => {
                    &&& event is None
                    &&& after.malformed_frames == Self::saturating_next(self.malformed_frames)
                },
            }
        }
    }

    /// A counter after one more count: it stops at the largest value.
    pub open spec fn saturating_next(count: u64) -> u64 {
        if count < u64::MAX {
            (count + 1) as u64
        } else {
            count
        }
    }

    /// A session for `group` that waits for its transport to open.
    pub fn start(
        adapter: ExchangeAdapter,
        market_type: MarketType,
        msg_type: MessageType,
        group: ConnectionGroup,
        backoff_base_ms: u64,
        backoff_cap_ms: u64,
    ) -> (session: Self)
        requires
            group@.len() <= adapter.limit,
            supports_all(adapter.exchange, group@),
        ensures
            session.wf(),
            session == (ConnectionSession {
                adapter,
                market_type,
                msg_type,
                group,
                state: SessionState::Connecting,
                backoff_base_ms,
                backoff_cap_ms,
                attempts: 0,
                last_traffic_at: 0,
                malformed_frames: 0,
            }),
    {
        ConnectionSession {
            adapter,
            market_type,
            msg_type,
            group,
            state: SessionState::Connecting,
            backoff_base_ms,
            backoff_cap_ms,
            attempts: 0,
            last_traffic_at: 0,
            malformed_frames: 0,
        }
    }

    /// The state of the session.
    pub fn state(&self) -> (state: SessionState)
        ensures
            state == self.state,
    {
        self.state
    }

    /// The transport has opened. A session that was connecting or
    /// reconnecting answers with the subscribe commands of its whole group
    /// and goes on to subscribe; any other session answers with nothing.
    pub fn on_transport_opened(&mut self, now: u64) -> (wire: Vec<String>)
        requires
            old(self).wf(),
        ensures
            final(self).wf(),
            final(self).same_setup(old(self)),
            final(self).attempts == old(self).attempts,
            final(self).malformed_frames == old(self).malformed_frames,
            old(self).state == SessionState::Connecting || old(self).state
                == SessionState::Reconnecting ==> {
                &&& final(self).state == SessionState::Subscribing
                &&& final(self).last_traffic_at == now
                &&& texts(wire@) == old(self).subscription()
            },
            !(old(self).state == SessionState::Connecting || old(self).state
                == SessionState::Reconnecting) ==> {
                &&& final(self).state == old(self).state
                &&& final(self).last_traffic_at == old(self).last_traffic_at
                &&& wire@.len() == 0
            },
    {
        match self.state {
            SessionState::Connecting | SessionState::Reconnecting => {
                match self.adapter.to_subscribe_command(&self.group.requests) {
                    Ok(wire) => {
                        self.state = SessionState::Subscribing;
                        self.last_traffic_at = now;
                        wire
                    },
                    Err(_) => Vec::new(),
                }
            },
            _ => Vec::new(),
        }
    }

    /// The subscribe commands were sent. A subscribing session goes on to
    /// stream, and its count of reconnect attempts starts anew; any other
    /// session stays as it is.
    pub fn on_subscribed(&mut self)
        requires
            old(self).wf(),
        ensures
            final(self).wf(),
            final(self).same_setup(old(self)),
            final(self).last_traffic_at == old(self).last_traffic_at,
            final(self).malformed_frames == old(self).malformed_frames,
            old(self).state == SessionState::Subscribing ==> final(self).state
                == SessionState::Streaming && final(self).attempts == 0,
            old(self).state != SessionState::Subscribing ==> final(self).state == old(self).state
                && final(self).attempts == old(self).attempts,
    {
        if self.state == SessionState::Subscribing {
            self.state = SessionState::Streaming;
            self.attempts = 0;
        }
    }

    /// Routes a frame whose kind is known. A streaming session turns a data
    /// frame into its event, drops a control frame, and counts and drops a
    /// malformed one; a session in any other state drops every frame. No
    /// frame changes the state of the session.
    pub fn route(&mut self, kind: FrameKind, raw: String, now: u64) -> (event: Option<CanonicalEvent>)
        requires
            old(self).wf(),
        ensures
            final(self).wf(),
            old(self).routed(kind@, raw@, now, final(self), event),
            routing(kind@) is None ==> event is None,
    {
        if self.state != SessionState::Streaming {
            return None;
        }
        self.last_traffic_at = now;
        match kind {
            FrameKind::Data { msg_type, symbol } => Some(
                normalize(self.adapter.exchange.name(), self.market_type, msg_type, symbol, raw, now),
            ),
            FrameKind::Control => None,
            FrameKind::Malformed => {
                if self.malformed_frames < u64::MAX {
                    self.malformed_frames = self.malformed_frames + 1;
                }
                None
            },
        }
    }

    /// A frame has come in. The session inspects it and routes it by its
    /// kind. Whatever the frame holds, the session keeps its state; a frame
    /// without routing data gives no event.
    pub fn on_frame(&mut self, raw: String, now: u64) -> (event: Option<CanonicalEvent>)
        requires
            old(self).wf(),
        ensures
            final(self).wf(),
            old(self).routed(inspected(raw@, old(self).msg_type), raw@, now, final(self), event),
            routing(inspected(raw@, old(self).msg_type)) is None ==> event is None,
    {
        let kind = inspect(raw.as_str(), self.msg_type);
        self.route(kind, raw, now)
    }

    /// The transport failed. A session that is not closed goes on to
    /// reconnect and answers with the delay to wait before the transport is
    /// opened again; a closed session stays closed and answers with nothing.
    pub fn on_transport_error(&mut self) -> (delay: Option<u64>)
        requires
            old(self).wf(),
        ensures
            final(self).wf(),
            final(self).same_setup(old(self)),
            final(self).last_traffic_at == old(self).last_traffic_at,
            final(self).malformed_frames == old(self).malformed_frames,
            old(self).state == SessionState::Closed ==> {
                &&& delay is None
                &&& final(self).state == SessionState::Closed
                &&& final(self).attempts == old(self).attempts
            },
            old(self).state != SessionState::Closed ==> {
                &&& final(self).state == SessionState::Reconnecting
                &&& final(self).attempts == Self::saturating_next(old(self).attempts)
                &&& delay matches Some(d) && d == backoff_delay(
                    old(self).backoff_base_ms as int,
                    old(self).backoff_cap_ms as int,
                    old(self).attempts as int,
                )
            },
    {
        if self.state == SessionState::Closed {
            return None;
        }
        let delay = compute_backoff(self.backoff_base_ms, self.backoff_cap_ms, self.attempts);
        self.state = SessionState::Reconnecting;
        if self.attempts < u64::MAX {
            self.attempts = self.attempts + 1;
        }
        Some(delay)
    }

    /// The ping timer fired. A streaming session whose exchange asks for
    /// pings either sends one, or, where the connection has been silent for
    /// twice the interval, reconnects as after a transport error. Any other
    /// session does nothing.
    pub fn on_tick(&mut self, now: u64) -> (action: TickAction)
        requires
            old(self).wf(),
        ensures
            final(self).wf(),
            final(self).same_setup(old(self)),
            final(self).last_traffic_at == old(self).last_traffic_at,
            final(self).malformed_frames == old(self).malformed_frames,
            match old(self).adapter.ping {
                Some(k) if old(self).state == SessionState::Streaming => if idle_too_long(
                    old(self).last_traffic_at as int,
                    now as int,
                    k.interval_ms as int,
                ) {
                    &&& final(self).state == SessionState::Reconnecting
                    &&& final(self).attempts == Self::saturating_next(old(self).attempts)
                    &&& action matches TickAction::Reconnect(d) && d == backoff_delay(
                        old(self).backoff_base_ms as int,
                        old(self).backoff_cap_ms as int,
                        old(self).attempts as int,
                    )
                } else {
                    &&& final(self).state == SessionState::Streaming
                    &&& final(self).attempts == old(self).attempts
                    &&& action matches TickAction::Ping(payload) && payload@ == k.payload@
                },
                _ => {
                    &&& final(self).state == old(self).state
                    &&& final(self).attempts == old(self).attempts
                    &&& action is Idle
                },
            },
    {
        if self.state != SessionState::Streaming {
            return TickAction::Idle;
        }
        match self.adapter.keepalive() {
            Some((interval_ms, payload)) => {
                let silent: bool = if now >= self.last_traffic_at {
                    let gap: u64 = now - self.last_traffic_at;
                    gap >= interval_ms && gap - interval_ms >= interval_ms
                } else {
                    false
                };
                if silent {
                    match self.on_transport_error() {
                        Some(delay) => TickAction::Reconnect(delay),
                        None => TickAction::Idle,
                    }
                } else {
                    TickAction::Ping(payload)
                }
            },
            None => TickAction::Idle,
        }
    }

    /// Shutdown was asked for: the session closes, from any state.
    pub fn stop(&mut self)
        requires
            old(self).wf(),
        ensures
            final(self).wf(),
            final(self).same_setup(old(self)),
            final(self).state == SessionState::Closed,
            final(self).attempts == old(self).attempts,
            final(self).last_traffic_at == old(self).last_traffic_at,
            final(self).malformed_frames == old(self).malformed_frames,
    {
        self.state = SessionState::Closed;
    }
}

/// Two sessions that were set up alike send the same subscribe commands when
/// their transport opens: what a session retransmits after a reconnect is
/// what it sent on its first connect.
pub proof fn lemma_resubscribe_replays(first: ConnectionSession, later: ConnectionSession)
    requires
        later.same_setup(&first),
    ensures
        later.subscription() == first.subscription(),
{
}

} // verus!
