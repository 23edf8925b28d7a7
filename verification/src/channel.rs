//! The disposal channel: a first-in, first-out queue of trash with a start
//! flag for its worker and a closed flag for its end of life.

use crate::trash::Trash;
use std::collections::VecDeque;
use vstd::prelude::*;

verus! {

/// What the worker is told when it asks for its next item.
pub enum Received {
    /// The oldest pending item, to be destroyed by the worker.
    Item(Trash),
    /// Nothing is pending, more may come: wait.
    Empty,
    /// Nothing is pending and nothing will come: the worker may end.
    Closed,
}

/// The channel as a mathematical value.
pub struct ChannelState {
    /// The items handed off and not yet received, oldest first.
    pub pending: Seq<Trash>,
    /// Whether a worker has been asked for.
    pub started: bool,
    /// Whether the channel has stopped accepting items.
    pub closed: bool,
}

impl ChannelState {
    /// A channel that nobody has used yet.
    pub open spec fn fresh() -> ChannelState {
        ChannelState { pending: Seq::empty(), started: false, closed: false }
    }

    /// The channel once a worker has been asked for.
    pub open spec fn start(self) -> ChannelState {
        ChannelState { started: true, ..self }
    }

    /// The channel after an attempt to send `trash`: an open channel queues it
    /// behind everything pending, a closed one is left as it was.
    pub open spec fn send(self, trash: Trash) -> ChannelState {
        if self.closed {
            self
        } else {
            ChannelState { pending: self.pending.push(trash), ..self }
        }
    }

    /// The channel after a hand-off of `trash`: a worker is asked for, and
    /// the item is sent.
    pub open spec fn hand_off(self, trash: Trash) -> ChannelState {
        self.start().send(trash)
    }

    /// What the worker is told next.
    pub open spec fn next(self) -> Received {
        if self.pending.len() > 0 {
            Received::Item(self.pending.first())
        } else if self.closed {
            Received::Closed
        } else {
            Received::Empty
        }
    }

    /// The channel after the worker has asked for its next item.
    pub open spec fn receive(self) -> ChannelState {
        if self.pending.len() > 0 {
            ChannelState { pending: self.pending.drop_first(), ..self }
        } else {
            self
        }
    }

    /// The channel once it has stopped accepting items. What is pending stays
    /// pending, for the worker to drain.
    pub open spec fn close(self) -> ChannelState {
        ChannelState { closed: true, ..self }
    }
}

/// The queue of trash, together with the flag that lets exactly one worker be
/// started and the flag that marks the end of the channel's life.
///
/// A program has one such channel. Its methods take `&mut self`, so callers
/// on several threads take turns, by whatever lock the owner of the channel
/// puts around it; no call waits for anything else.
pub struct DisposalChannel {
    queue: VecDeque<Trash>,
    started: bool,
    closed: bool,
}

impl View for DisposalChannel {
    type V = ChannelState;

    closed spec fn view(&self) -> ChannelState {
        ChannelState { pending: self.queue@, started: self.started, closed: self.closed }
    }
}

impl DisposalChannel {
    /// An open channel with nothing pending and no worker.
    pub fn new() -> (channel: DisposalChannel)
        ensures
            channel@ == ChannelState::fresh(),
    {
        DisposalChannel { queue: VecDeque::new(), started: false, closed: false }
    }

    /// Makes sure a worker has been asked for. The result says whether this
    /// call is the one that asks: the caller that gets `true` starts the
    /// worker, every other caller finds it started.
    pub fn ensure_started(&mut self) -> (first: bool)
        ensures
            first == !old(self)@.started,
            final(self)@ == old(self)@.start(),
    {
        let first = !self.started;
        self.started = true;
        first
    }

    /// Queues `trash` behind everything pending. A closed channel takes
    /// nothing: it hands the item back, for the caller to destroy.
    pub fn send(&mut self, trash: Trash) -> (outcome: Result<(), Trash>)
        ensures
            final(self)@ == old(self)@.send(trash),
            old(self)@.closed <==> outcome == Err::<(), Trash>(trash),
            !old(self)@.closed <==> outcome is Ok,
    {
        if self.closed {
            Err(trash)
        } else {
            self.queue.push_back(trash);
            Ok(())
        }
    }

    /// Takes the oldest pending item out of the queue, or says why there is
    /// none.
    pub fn receive(&mut self) -> (received: Received)
        ensures
            received == old(self)@.next(),
            final(self)@ == old(self)@.receive(),
    {
        match self.queue.pop_front() {
            Some(trash) => Received::Item(trash),
            None => {
                if self.closed {
                    Received::Closed
                } else {
                    Received::Empty
                }
            },
        }
    }

    /// Stops the channel from accepting items. What is pending stays pending.
    pub fn close(&mut self)
        ensures
            final(self)@ == old(self)@.close(),
    {
        self.closed = true;
    }

    /// Whether a worker has been asked for.
    pub fn is_started(&self) -> (started: bool)
        ensures
            started == self@.started,
    {
        self.started
    }

    /// Whether the channel has stopped accepting items.
    pub fn is_closed(&self) -> (closed: bool)
        ensures
            closed == self@.closed,
    {
        self.closed
    }

    /// The number of items pending.
    pub fn len(&self) -> (n: usize)
        ensures
            n == self@.pending.len(),
    {
        self.queue.len()
    }
}

} // verus!
