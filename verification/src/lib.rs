//! Deferred destruction.
//!
//! A value whose destructor is expensive can be handed to a disposal channel
//! instead of being destroyed where its owner lets go of it. A single worker
//! drains the channel and destroys each item in the order in which it was
//! handed off.
//!
//! The crate holds the rules of that mechanism: the channel's state machine
//! ([`DisposalChannel`]), the hand-off ([`adrop`]) and the ownership wrapper
//! ([`Adrop`]). Locks, threads and blocking waits are the embedding program's
//! business: it guards one channel with a lock, starts a worker when a
//! hand-off asks for one, and lets the worker act on what
//! [`DisposalChannel::receive`] tells it.

pub mod channel;
pub mod handoff;
pub mod trace;
pub mod trash;
pub mod wrapper;

pub use channel::{ChannelState, DisposalChannel, Received};
pub use handoff::adrop;
pub use trash::Trash;
pub use wrapper::Adrop;
