//! The ownership wrapper.

use crate::channel::{ChannelState, DisposalChannel};
use crate::handoff::adrop;
use crate::trace::{lemma_handed_off_once, receives};
use crate::trash::Trash;
use vstd::prelude::*;

verus! {

/// Owns one value and, when it is finalized, hands that value to a disposal
/// channel instead of destroying it in place.
///
/// A wrapper either holds its value or is empty. [`Adrop::new`] makes it
/// holding, and it stays so until its finalizer ([`Adrop::drop`]) has run.
/// An empty wrapper never gets a value again, and its finalizer does nothing.
/// The view of a wrapper is the value it holds, if any.
#[derive(Clone, Debug, PartialEq, Eq, PartialOrd, Ord, Hash)]
pub struct Adrop<T: Send + 'static> {
    content: Option<T>,
}

impl<T: Send + 'static> View for Adrop<T> {
    type V = Option<T>;

    closed spec fn view(&self) -> Option<T> {
        self.content
    }
}

impl<T: Send + 'static> Default for Adrop<T> {
    /// The empty wrapper.
    fn default() -> (wrapper: Adrop<T>)
        ensures
            wrapper@ is None,
    {
        Adrop { content: None }
    }
}

impl<T: Send + 'static> Adrop<T> {
    /// The channel after this wrapper's finalizer has run against it: the
    /// value of a holding wrapper is handed off, an empty wrapper leaves the
    /// channel alone.
    pub open spec fn finalized_into(self, channel: ChannelState) -> ChannelState {
        match self@ {
            Some(value) => channel.hand_off(Trash::of(value)),
            None => channel,
        }
    }

    /// Whether this wrapper's finalizer, run against `channel`, asks for a
    /// worker.
    pub open spec fn asks_for_worker(self, channel: ChannelState) -> bool {
        self@ is Some && !channel.started
    }

    /// Wraps `content`.
    pub fn new(content: T) -> (wrapper: Adrop<T>)
        ensures
            wrapper@ == Some(content),
    {
        Adrop { content: Some(content) }
    }

    /// Whether the wrapper holds a value.
    pub fn is_holding(&self) -> (holding: bool)
        ensures
            holding == self@ is Some,
    {
        self.content.is_some()
    }

    /// Takes the value out of the wrapper and gives it back to the caller,
    /// to be destroyed like any other value. The wrapper is consumed, so
    /// nothing is left for a finalizer to hand off.
    pub fn into_inner(self) -> (content: T)
        requires
            self@ is Some,
        ensures
            self@ == Some(content),
    {
        self.content.unwrap()
    }

    /// The value, through the wrapper.
    pub fn deref(&self) -> (content: &T)
        requires
            self@ is Some,
        ensures
            self@ == Some(*content),
    {
        self.content.as_ref().unwrap()
    }

    /// The value, through the wrapper, to be changed in place. The wrapper
    /// ends up holding whatever the caller leaves behind the reference.
    pub fn deref_mut(&mut self) -> (content: &mut T)
        requires
            old(self)@ is Some,
        ensures
            old(self)@ == Some(*content),
            final(self)@ == Some(*final(content)),
    {
        self.content.as_mut().unwrap()
    }

    /// The finalizer. A holding wrapper hands its value to `channel`, as
    /// [`adrop`] does, and is left empty; the result says whether the caller
    /// has to start the worker. An empty wrapper does nothing.
    #[must_use]
    pub fn drop(&mut self, channel: &mut DisposalChannel) -> (start_worker: bool)
        ensures
            final(self)@ is None,
            final(channel)@ == old(self).finalized_into(old(channel)@),
            start_worker == old(self).asks_for_worker(old(channel)@),
    {
        match self.content.take() {
            Some(content) => adrop(channel, content),
            None => false,
        }
    }
}

/// An empty wrapper's finalizer does nothing: it leaves every channel as it
/// is and asks for no worker. So a finalizer that has run, which leaves its
/// wrapper empty, hands nothing off when it runs again; and a wrapper whose
/// value was taken out has nothing to hand off.
pub proof fn lemma_empty_finalizer_is_idle<T: Send + 'static>(
    wrapper: Adrop<T>,
    channel: ChannelState,
)
    requires
        wrapper@ is None,
    ensures
        wrapper.finalized_into(channel) == channel,
        !wrapper.asks_for_worker(channel),
{
}

/// A wrapped value is destroyed once. When the finalizer of a wrapper that
/// holds `value` has run against an open channel, a worker that asks often
/// enough receives the value once, behind what was pending.
pub proof fn lemma_finalized_once<T: Send + 'static>(
    wrapper: Adrop<T>,
    value: T,
    start: ChannelState,
    n: nat,
)
    requires
        wrapper@ == Some(value),
        !start.closed,
        n > start.pending.len(),
    ensures
        wrapper.finalized_into(start).trace(receives(n)).delivered == start.pending.push(
            Trash::of(value),
        ),
        wrapper.finalized_into(start).trace(receives(n)).channel.pending.len() == 0,
{
    lemma_handed_off_once(start, Trash::of(value), n);
}

} // verus!
