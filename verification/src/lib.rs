//! A multi-producer, multi-consumer in-process message channel in which every
//! new receiver first replays the complete history of previously sent messages
//! before moving on to live delivery.
//!
//! The heart of the crate is the [`SharedLog`]: an append-only sequence of
//! messages together with a registry of wake flags, one per receiver. A
//! [`Sender`] appends to the log and raises every wake flag; a [`Receiver`]
//! holds a private cursor into the log and drains it one message per call,
//! reporting when it has caught up so that a host runtime can suspend it until
//! the next append.

use vstd::prelude::*;

pub mod laws;
mod receiver;
mod sender;
mod shared_log;

pub use receiver::Receiver;
pub use sender::Sender;
pub use shared_log::SharedLog;

verus! {

/// A replay channel: the owner of the [`SharedLog`] that all of its send and
/// receive handles operate on.
///
/// Each receiver obtained from [`ReplayChannel::receiver`] starts with its
/// cursor at 0 and therefore first receives every message already in the log,
/// in append order, before anything sent later — late joiners replay the full
/// history. The log is a public field so that handles can be driven against
/// it; a host that shares one channel across threads wraps this value in its
/// own shared-ownership and locking layer and hands each handle a borrow.
pub struct ReplayChannel<T> {
    /// The shared log all handles of this channel operate on.
    pub log: SharedLog<T>,
}

impl<T> ReplayChannel<T> {
    /// Creates an empty channel: no messages, no registered receivers.
    pub fn new() -> (channel: ReplayChannel<T>)
        ensures
            channel.log@ == Seq::<T>::empty(),
            channel.log.wake_flags() == Seq::<bool>::empty(),
    {
        ReplayChannel { log: SharedLog::new() }
    }

    /// Obtains a new send handle for this channel's log.
    pub fn sender(&self) -> (sender: Sender<T>) {
        Sender::new()
    }

    /// Obtains a new receive handle with cursor 0, registering a fresh wake
    /// handle with the log. Because the cursor starts at 0, the new receiver
    /// replays everything appended so far before any live message.
    pub fn receiver(&mut self) -> (receiver: Receiver<T>)
        ensures
            final(self).log@ == old(self).log@,
            final(self).log.wake_flags() == old(self).log.wake_flags().push(false),
            receiver.wf(&final(self).log),
            receiver.cursor() == 0,
            receiver.delivered() == Seq::<T>::empty(),
            receiver.wake_handle() == old(self).log.wake_count(),
    {
        Receiver::new(&mut self.log)
    }
}

} // verus!
