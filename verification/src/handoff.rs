//! The hand-off.

use crate::channel::DisposalChannel;
use crate::trash::Trash;
use vstd::prelude::*;

verus! {

/// Hands `trash` to `channel`, to be destroyed by the worker.
///
/// The value is boxed as [`Trash`], a worker is asked for if none was, and
/// the box is queued behind everything pending. Nothing waits for the
/// destruction. The result says whether the caller has to start the worker:
/// it is `true` when no worker had been asked for before, so for one hand-off
/// to a channel at most.
///
/// A closed channel takes nothing. The value is destroyed here instead, in
/// place, before the call returns; the caller is not told.
#[must_use]
pub fn adrop<T: Send + 'static>(channel: &mut DisposalChannel, trash: T) -> (start_worker: bool)
    ensures
        start_worker == !old(channel)@.started,
        final(channel)@ == old(channel)@.hand_off(Trash::of(trash)),
{
    let boxed = Trash::new(trash);
    let start_worker = channel.ensure_started();
    match channel.send(boxed) {
        Ok(()) => {},
        Err(_rejected) => {},
    }
    start_worker
}

} // verus!
