//! What a client offers beyond raw channels.

use vstd::prelude::*;

verus! {

pub trait OrderBookSnapshot {
    /// The commands that wait to be sent, as texts, in order.
    spec fn pending(&self) -> Seq<Seq<char>>;

    /// The command that subscribes to the orderbook snapshot channel of a
    /// pair.
    spec fn snapshot_command(pair: Seq<char>) -> Seq<char>;

    /// Subscribes to orderbook snapshot channels.
    ///
    /// A orderbook snapshot channel sends a complete snapshot every interval.
    /// On MXC this is the channel `depth.full` for Swap and `symbol` for Spot.
    ///
    /// One command for each pair is queued behind those that wait already, in
    /// the order of the pairs.
    fn subscribe_orderbook_snapshot(&mut self, pairs: &[String])
        ensures
            final(self).pending() == old(self).pending() + Seq::new(
                pairs@.len(),
                |i: int| Self::snapshot_command(pairs@[i]@),
            ),
    ;
}

} // verus!
