use crate::error::BridgeError;
use crate::poll::{delivery, event_tag, outcome_result, Delivery, Received};
use vstd::prelude::*;

verus! {

/// The event channel as one logical queue: the events produced and not yet
/// received, in production order, and whether every producer is gone. This is
/// the behaviour std's `mpsc` channel documents; no contract of the receive
/// wrapper ties it to a running channel, so the properties below hold of this
/// model combined with the task's verified steps (`classify`, `complete`).
pub struct ChannelState {
    pub pending: Seq<Seq<u8>>,
    pub closed: bool,
}

/// The producer emits one event: it joins the back of the queue.
pub open spec fn produce(ch: ChannelState, e: Seq<u8>) -> ChannelState {
    ChannelState { pending: ch.pending.push(e), closed: ch.closed }
}

/// Every producer goes away; what is queued stays.
pub open spec fn close(ch: ChannelState) -> ChannelState {
    ChannelState { pending: ch.pending, closed: true }
}

/// One bounded-wait receive with nothing produced during the wait: the oldest
/// queued event, or else a disconnection where the producers are gone, or
/// else a timeout.
pub open spec fn receive(ch: ChannelState) -> (Received, ChannelState) {
    if ch.pending.len() > 0 {
        (Received::Event(ch.pending[0]), ChannelState { pending: ch.pending.drop_first(), closed: ch.closed })
    } else if ch.closed {
        (Received::Disconnected, ch)
    } else {
        (Received::Timeout, ch)
    }
}

/// One poll: a receive, and what the callback is handed for it.
pub open spec fn poll_once(ch: ChannelState) -> (Delivery, ChannelState) {
    (delivery(outcome_result(receive(ch).0)), receive(ch).1)
}

/// What the callbacks of `n` sequential polls are handed, in order.
pub open spec fn poll_many(ch: ChannelState, n: nat) -> Seq<Delivery>
    decreases n,
{
    if n == 0 {
        Seq::empty()
    } else {
        seq![poll_once(ch).0] + poll_many(poll_once(ch).1, (n - 1) as nat)
    }
}

/// The callback's value for a delivered event payload.
pub open spec fn delivered_event(e: Seq<u8>) -> Delivery {
    Delivery::Event { name: event_tag(), data: e }
}

/// On the modelled channel: N sequential polls on a channel holding N events
/// hand each event to exactly one callback, in production order.
pub proof fn lemma_no_double_delivery(events: Seq<Seq<u8>>, closed: bool)
    ensures
        poll_many(ChannelState { pending: events, closed }, events.len()) =~= events.map_values(
            |e: Seq<u8>| delivered_event(e),
        ),
    decreases events.len(),
{
    if events.len() > 0 {
        let rest = events.drop_first();
        lemma_no_double_delivery(rest, closed);
        assert(poll_many(ChannelState { pending: rest, closed }, rest.len()) =~= rest.map_values(
            |e: Seq<u8>| delivered_event(e),
        ));
    }
}

/// On the modelled channel: a poll on an open, empty channel hands its callback
/// "no data" and leaves the channel as it was, so a later poll after an event
/// is produced delivers it.
pub proof fn lemma_timeout_non_terminal(ch: ChannelState, e: Seq<u8>)
    requires
        ch.pending.len() == 0,
        !ch.closed,
    ensures
        poll_once(ch).0 == Delivery::NoData,
        poll_once(ch).1 == ch,
        poll_once(produce(poll_once(ch).1, e)).0 == delivered_event(e),
{
}

/// On the modelled channel: once the producers are gone and the queue is
/// drained, every later poll's callback is handed a `ChannelDisconnected`
/// failure, never "no data".
pub proof fn lemma_disconnection_terminal(ch: ChannelState, n: nat)
    requires
        ch.closed,
        ch.pending.len() == 0,
    ensures
        poll_many(ch, n).len() == n,
        forall|k: int|
            0 <= k < n ==> #[trigger] poll_many(ch, n)[k] == Delivery::Failure(BridgeError::ChannelDisconnected),
    decreases n,
{
    if n > 0 {
        lemma_disconnection_terminal(ch, (n - 1) as nat);
        assert(poll_once(ch).1 == ch);
        assert forall|k: int| 0 <= k < n implies #[trigger] poll_many(ch, n)[k] == Delivery::Failure(
            BridgeError::ChannelDisconnected,
        ) by {
            if k > 0 {
                assert(poll_many(ch, n)[k] == poll_many(ch, (n - 1) as nat)[k - 1]);
            }
        }
    }
}

} // verus!
