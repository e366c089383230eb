//! The crawl orchestrator: it checks what a crawl asks for, sizes the pool of
//! connections with the planner, and owns the sessions and their shutdown.

use vstd::prelude::*;
use crate::adapter::{channel_name, Exchange, ExchangeAdapter};
use crate::frames::inspected;
use crate::model::{group_views, request_views};
use crate::model::{CanonicalEvent, ChannelRequest, ConfigurationError, MarketType, MessageType, SessionState};
use crate::planner::{is_plan, lemma_concat_holds, lemma_plan_groups_bounded, plan};
use crate::session::ConnectionSession;

verus! {

/// The requests of a crawl: one of kind `msg_type` for each symbol, in order.
pub open spec fn requests_for(msg_type: MessageType, symbols: Seq<String>) -> Seq<
    (MessageType, Seq<char>),
> {
    Seq::new(symbols.len(), |i: int| (msg_type, symbols[i]@))
}

/// Why a crawl is refused, if it is: for want of symbols first, then for want
/// of a channel, then for a channel limit of zero.
pub open spec fn crawl_error(
    exchange: Exchange,
    limit: usize,
    msg_type: MessageType,
    symbols: int,
) -> Option<ConfigurationError> {
    if symbols == 0 {
        Some(ConfigurationError::EmptySymbols)
    } else if channel_name(exchange, msg_type) is None {
        Some(ConfigurationError::UnsupportedChannel)
    } else if limit == 0 {
        Some(ConfigurationError::ZeroChannelLimit)
    } else {
        None
    }
}

/// Builds the requests of a crawl.
pub fn build_requests(msg_type: MessageType, symbols: &Vec<String>) -> (requests: Vec<ChannelRequest>)
    ensures
        request_views(requests@) == requests_for(msg_type, symbols@),
{
    let mut requests: Vec<ChannelRequest> = Vec::new();
    let mut i: usize = 0;
    while i < symbols.len()
        invariant
            i <= symbols@.len(),
            request_views(requests@) == requests_for(msg_type, symbols@).subrange(0, i as int),
        decreases symbols@.len() - i,
    {
        let ghost before = requests@;
        requests.push(ChannelRequest::new(msg_type, symbols[i].clone()));
        assert(request_views(requests@) =~= request_views(before).push((msg_type, symbols@[i as int]@)));
        assert(requests_for(msg_type, symbols@).subrange(0, i + 1) =~= requests_for(
            msg_type,
            symbols@,
        ).subrange(0, i as int).push((msg_type, symbols@[i as int]@)));
        i = i + 1;
    }
    assert(requests_for(msg_type, symbols@).subrange(0, i as int) =~= requests_for(
        msg_type,
        symbols@,
    ));
    requests
}

/// The sessions of one crawl.
#[derive(Debug)]
pub struct CrawlOrchestrator {
    pub sessions: Vec<ConnectionSession>,
}

impl CrawlOrchestrator {
    /// Every session is well formed.
    pub open spec fn wf(&self) -> bool {
        forall|i: int| 0 <= i < self.sessions@.len() ==> (#[trigger] self.sessions@[i]).wf()
    }

    /// The groups of the sessions, in order.
    pub open spec fn groups(&self) -> Seq<Seq<(MessageType, Seq<char>)>> {
        Seq::new(self.sessions@.len(), |i: int| self.sessions@[i].group@)
    }

    /// Whether every session has reached `Closed`.
    pub open spec fn all_closed(&self) -> bool {
        forall|i: int|
            0 <= i < self.sessions@.len() ==> (#[trigger] self.sessions@[i]).state
                == SessionState::Closed
    }

    /// Sets up a crawl of `msg_type` for `symbols`: one session, waiting for
    /// its transport, for each group of the plan. Nothing is set up where the
    /// crawl is refused.
    pub fn crawl(
        adapter: &ExchangeAdapter,
        market_type: MarketType,
        msg_type: MessageType,
        symbols: &Vec<String>,
        backoff_base_ms: u64,
        backoff_cap_ms: u64,
    ) -> (result: Result<CrawlOrchestrator, ConfigurationError>)
        ensures
            match result {
                Err(e) => crawl_error(adapter.exchange, adapter.limit, msg_type, symbols@.len() as int)
                    == Some(e),
                Ok(crawl) => {
                    &&& crawl_error(adapter.exchange, adapter.limit, msg_type, symbols@.len() as int)
                        is None
                    &&& crawl.wf()
                    &&& is_plan(
                        crawl.groups(),
                        requests_for(msg_type, symbols@),
                        adapter.limit as int,
                    )
                    &&& forall|i: int|
                        0 <= i < crawl.sessions@.len() ==> {
                            let s = #[trigger] crawl.sessions@[i];
                            &&& s.state == SessionState::Connecting
                            &&& s.adapter == *adapter
                            &&& s.market_type == market_type
                            &&& s.msg_type == msg_type
                            &&& s.backoff_base_ms == backoff_base_ms
                            &&& s.backoff_cap_ms == backoff_cap_ms
                            &&& s.attempts == 0
                            &&& s.malformed_frames == 0
                        }
                },
            },
    {
        if symbols.len() == 0 {
            return Err(ConfigurationError::EmptySymbols);
        }
        if adapter.exchange.channel(msg_type).is_none() {
            return Err(ConfigurationError::UnsupportedChannel);
        }
        let requests = build_requests(msg_type, symbols);
        let groups = match plan(&requests, adapter.channel_limit()) {
            Ok(groups) => groups,
            Err(e) => {
                return Err(e);
            },
        };
        let ghost all = requests_for(msg_type, symbols@);
        let ghost planned = group_views(groups@);
        proof {
            lemma_plan_groups_bounded(planned, all, adapter.limit as int);
        }
        let mut sessions: Vec<ConnectionSession> = Vec::new();
        let mut i: usize = 0;
        while i < groups.len()
            invariant
                i <= groups@.len(),
                planned == group_views(groups@),
                all == requests_for(msg_type, symbols@),
                is_plan(planned, all, adapter.limit as int),
                channel_name(adapter.exchange, msg_type) is Some,
                forall|g: int| 0 <= g < planned.len() ==> 1 <= (#[trigger] planned[g]).len() <= adapter.limit,
                sessions@.len() == i,
                forall|k: int|
                    0 <= k < i ==> {
                        let s = #[trigger] sessions@[k];
                        &&& s.wf()
                        &&& s.group@ == planned[k]
                        &&& s.state == SessionState::Connecting
                        &&& s.adapter == *adapter
                        &&& s.market_type == market_type
                        &&& s.msg_type == msg_type
                        &&& s.backoff_base_ms == backoff_base_ms
                        &&& s.backoff_cap_ms == backoff_cap_ms
                        &&& s.attempts == 0
                        &&& s.malformed_frames == 0
                    },
            decreases groups@.len() - i,
        {
            let group = groups[i].duplicate();
            proof {
                assert(group@ == planned[i as int]);
                assert forall|j: int| 0 <= j < group@.len() implies channel_name(
                    adapter.exchange,
                    (#[trigger] group@[j]).0,
                ) is Some by {
                    lemma_concat_holds(planned, i as int, j);
                    let k = choose|k: int| 0 <= k < all.len() && all[k] == group@[j];
                    assert(all[k].0 == msg_type);
                }
            }
            let session = ConnectionSession::start(
                adapter.duplicate(),
                market_type,
                msg_type,
                group,
                backoff_base_ms,
                backoff_cap_ms,
            );
            sessions.push(session);
            i = i + 1;
        }
        let crawl = CrawlOrchestrator { sessions };
        assert(crawl.groups() =~= planned);
        Ok(crawl)
    }

    /// The number of sessions, which is the number of connections.
    pub fn session_count(&self) -> (count: usize)
        ensures
            count == self.sessions@.len(),
    {
        self.sessions.len()
    }

    /// Hands a frame to the session that it came in on. After shutdown no
    /// frame becomes an event, and the sessions stay closed.
    pub fn on_frame(&mut self, session: usize, raw: String, now: u64) -> (event: Option<CanonicalEvent>)
        requires
            old(self).wf(),
            session < old(self).sessions@.len(),
        ensures
            final(self).wf(),
            final(self).sessions@.len() == old(self).sessions@.len(),
            forall|i: int|
                0 <= i < old(self).sessions@.len() ==> (#[trigger] final(self).sessions@[i]).state
                    == old(self).sessions@[i].state,
            forall|i: int|
                0 <= i < old(self).sessions@.len() && i != session ==> final(self).sessions@[i]
                    == old(self).sessions@[i],
            old(self).sessions@[session as int].routed(
                inspected(raw@, old(self).sessions@[session as int].msg_type),
                raw@,
                now,
                &final(self).sessions@[session as int],
                event,
            ),
            old(self).all_closed() ==> event is None && final(self).all_closed(),
    {
        self.sessions[session].on_frame(raw, now)
    }

    /// Hands shutdown on to every session: all of them are closed
    /// afterwards, and each keeps the setup it had.
    pub fn stop_all(&mut self)
        requires
            old(self).wf(),
        ensures
            final(self).wf(),
            final(self).all_closed(),
            final(self).sessions@.len() == old(self).sessions@.len(),
            forall|i: int|
                0 <= i < old(self).sessions@.len() ==> (#[trigger] final(self).sessions@[i]).same_setup(
                    &old(self).sessions@[i],
                ),
    {
        let ghost before = self.sessions@;
        let mut i: usize = 0;
        while i < self.sessions.len()
            invariant
                i <= self.sessions@.len(),
                self.sessions@.len() == before.len(),
                forall|k: int| 0 <= k < self.sessions@.len() ==> (#[trigger] self.sessions@[k]).wf(),
                forall|k: int| 0 <= k < i ==> (#[trigger] self.sessions@[k]).state == SessionState::Closed,
                forall|k: int|
                    0 <= k < self.sessions@.len() ==> (#[trigger] self.sessions@[k]).same_setup(
                        &before[k],
                    ),
            decreases self.sessions@.len() - i,
        {
            self.sessions[i].stop();
            i = i + 1;
        }
    }
}

} // verus!
