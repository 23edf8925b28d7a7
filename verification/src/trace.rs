//! Runs of a disposal channel, and what holds of every one of them.

use crate::channel::{ChannelState, Received};
use crate::trash::Trash;
use vstd::prelude::*;

verus! {

/// One thing that can happen to a channel.
pub enum Event {
    /// A value is handed off.
    HandOff(Trash),
    /// The worker asks for its next item.
    Receive,
    /// The channel is closed.
    Close,
}

/// A channel together with the record of a run of events.
pub struct Trace {
    /// The channel as the run has left it.
    pub channel: ChannelState,
    /// The items that the channel queued during the run, in the order of
    /// their hand-off.
    pub accepted: Seq<Trash>,
    /// The items that the worker received during the run, in the order in
    /// which it received them.
    pub delivered: Seq<Trash>,
    /// The number of hand-offs that asked for a worker.
    pub starts: nat,
}

impl Trace {
    /// The record of the empty run.
    pub open spec fn begin(channel: ChannelState) -> Trace {
        Trace { channel, accepted: Seq::empty(), delivered: Seq::empty(), starts: 0 }
    }

    /// The record after one more event.
    pub open spec fn step(self, event: Event) -> Trace {
        match event {
            Event::HandOff(trash) => Trace {
                channel: self.channel.hand_off(trash),
                accepted: if self.channel.closed {
                    self.accepted
                } else {
                    self.accepted.push(trash)
                },
                delivered: self.delivered,
                starts: if self.channel.started {
                    self.starts
                } else {
                    self.starts + 1
                },
            },
            Event::Receive => Trace {
                channel: self.channel.receive(),
                accepted: self.accepted,
                delivered: match self.channel.next() {
                    Received::Item(trash) => self.delivered.push(trash),
                    _ => self.delivered,
                },
                starts: self.starts,
            },
            Event::Close => Trace {
                channel: self.channel.close(),
                accepted: self.accepted,
                delivered: self.delivered,
                starts: self.starts,
            },
        }
    }

    /// The record after the events of `events`, first to last.
    pub open spec fn run(self, events: Seq<Event>) -> Trace
        decreases events.len(),
    {
        if events.len() == 0 {
            self
        } else {
            self.run(events.drop_last()).step(events.last())
        }
    }
}

impl ChannelState {
    /// The record of the run of `events` on this channel.
    pub open spec fn trace(self, events: Seq<Event>) -> Trace {
        Trace::begin(self).run(events)
    }
}

/// The run in which each item of `items` is handed off, first to last.
pub open spec fn hand_offs(items: Seq<Trash>) -> Seq<Event> {
    Seq::new(items.len(), |i: int| Event::HandOff(items[i]))
}

/// The run in which the worker asks `n` times for its next item.
pub open spec fn receives(n: nat) -> Seq<Event> {
    Seq::new(n, |i: int| Event::Receive)
}

/// A run of two parts is the second part run on what the first has left.
pub proof fn lemma_run_in_parts(start: Trace, first: Seq<Event>, second: Seq<Event>)
    ensures
        start.run(first + second) == start.run(first).run(second),
    decreases second.len(),
{
    if second.len() > 0 {
        assert((first + second).drop_last() =~= first + second.drop_last());
        lemma_run_in_parts(start, first, second.drop_last());
    }
}

/// Nothing is lost and nothing comes twice. Whatever the events of a run and
/// their order, what was pending at its start followed by what the channel
/// queued during it is what the worker received during it followed by what is
/// pending at its end: every queued item is received once or waits its turn.
pub proof fn lemma_conservation(start: ChannelState, events: Seq<Event>)
    ensures
        start.pending + start.trace(events).accepted == start.trace(events).delivered
            + start.trace(events).channel.pending,
    decreases events.len(),
{
    if events.len() > 0 {
        lemma_conservation(start, events.drop_last());
        let before = start.trace(events.drop_last());
        let after = start.trace(events);
        match events.last() {
            Event::HandOff(trash) => {
                if !before.channel.closed {
                    assert(after.delivered + after.channel.pending =~= (before.delivered
                        + before.channel.pending).push(trash));
                }
            },
            Event::Receive => {
                assert(after.delivered + after.channel.pending =~= before.delivered
                    + before.channel.pending);
            },
            Event::Close => {},
        }
    }
}

/// First in, first out. Whatever the events of a run and their order, the
/// worker receives the items in the order in which they were queued: what it
/// received is the beginning of what was pending at the start followed by
/// what the channel queued during the run.
pub proof fn lemma_delivery_order(start: ChannelState, events: Seq<Event>)
    ensures
        start.trace(events).delivered.is_prefix_of(start.pending + start.trace(events).accepted),
{
    lemma_conservation(start, events);
    let trace = start.trace(events);
    assert(trace.delivered =~= (trace.delivered + trace.channel.pending).subrange(
        0,
        trace.delivered.len() as int,
    ));
}

/// A worker is asked for once. In a run on a channel that has no worker yet,
/// the first hand-off asks for one and no other does; in a run on a channel
/// that has its worker, none does.
pub proof fn lemma_worker_started_once(start: ChannelState, events: Seq<Event>)
    ensures
        start.started ==> start.trace(events).channel.started,
        start.trace(events).starts == if !start.started && start.trace(events).channel.started {
            1nat
        } else {
            0nat
        },
        start.trace(events).channel.started <==> start.started || exists|i: int|
            0 <= i < events.len() && events[i] is HandOff,
    decreases events.len(),
{
    if events.len() > 0 {
        let earlier = events.drop_last();
        lemma_worker_started_once(start, earlier);
        if exists|i: int| 0 <= i < events.len() && events[i] is HandOff {
            let i = choose|i: int| 0 <= i < events.len() && events[i] is HandOff;
            assert(i < earlier.len() ==> earlier[i] is HandOff);
        }
    }
}

/// Closing is for good. In a run on a closed channel the channel stays
/// closed and queues nothing, whatever is handed to it.
pub proof fn lemma_closed_is_final(start: ChannelState, events: Seq<Event>)
    requires
        start.closed,
    ensures
        start.trace(events).channel.closed,
        start.trace(events).accepted.len() == 0,
    decreases events.len(),
{
    if events.len() > 0 {
        lemma_closed_is_final(start, events.drop_last());
    }
}

/// Handing off to an open channel queues every item, in order.
pub proof fn lemma_hand_offs_queue(start: Trace, items: Seq<Trash>)
    requires
        !start.channel.closed,
    ensures
        start.run(hand_offs(items)).channel.pending == start.channel.pending + items,
        start.run(hand_offs(items)).channel.closed == start.channel.closed,
        start.run(hand_offs(items)).accepted == start.accepted + items,
        start.run(hand_offs(items)).delivered == start.delivered,
    decreases items.len(),
{
    if items.len() > 0 {
        assert(hand_offs(items).drop_last() =~= hand_offs(items.drop_last()));
        lemma_hand_offs_queue(start, items.drop_last());
    }
}

/// A worker that asks often enough receives everything that is pending, in
/// order, and leaves nothing pending.
pub proof fn lemma_drain(start: Trace, n: nat)
    ensures
        n <= start.channel.pending.len() ==> {
            &&& start.run(receives(n)).delivered == start.delivered
                + start.channel.pending.take(n as int)
            &&& start.run(receives(n)).channel.pending == start.channel.pending.skip(n as int)
        },
        n >= start.channel.pending.len() ==> {
            &&& start.run(receives(n)).delivered == start.delivered + start.channel.pending
            &&& start.run(receives(n)).channel.pending.len() == 0
        },
        start.run(receives(n)).accepted == start.accepted,
    decreases n,
{
    if n > 0 {
        let fewer = (n - 1) as nat;
        assert(receives(n).drop_last() =~= receives(fewer));
        lemma_drain(start, fewer);
    }
}

/// Hand-offs come out in the order in which they went in. After the items
/// of `items` have been handed to an open channel, first to last, a worker
/// that asks often enough receives what was pending before and then the
/// items of `items`, first to last, and nothing else.
pub proof fn lemma_fifo(start: ChannelState, items: Seq<Trash>, n: nat)
    requires
        !start.closed,
        n >= start.pending.len() + items.len(),
    ensures
        start.trace(hand_offs(items) + receives(n)).delivered == start.pending + items,
        start.trace(hand_offs(items) + receives(n)).channel.pending.len() == 0,
{
    let begin = Trace::begin(start);
    lemma_run_in_parts(begin, hand_offs(items), receives(n));
    lemma_hand_offs_queue(begin, items);
    lemma_drain(begin.run(hand_offs(items)), n);
}

/// A value handed off is destroyed once. Handed to an open channel, it is
/// received by a worker that asks often enough once, behind what was
/// pending, however much longer the worker goes on asking. Handed to a
/// closed channel, it is never received: it was destroyed at its hand-off.
pub proof fn lemma_handed_off_once(start: ChannelState, trash: Trash, n: nat)
    requires
        n > start.pending.len(),
    ensures
        !start.closed ==> start.hand_off(trash).trace(receives(n)).delivered
            == start.pending.push(trash),
        start.closed ==> start.hand_off(trash).trace(receives(n)).delivered == start.pending,
        start.hand_off(trash).trace(receives(n)).channel.pending.len() == 0,
{
    let begin = Trace::begin(start.hand_off(trash));
    lemma_drain(begin, n);
}

} // verus!
