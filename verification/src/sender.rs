//! The sending side of the channel: a lightweight handle that appends to the
//! shared log and fans the wake signal out to every registered receiver.

use vstd::prelude::*;
use core::marker::PhantomData;
use crate::shared_log::SharedLog;

verus! {

/// A send handle over a [`SharedLog`].
///
/// A sender carries no state of its own: any number of them may exist at
/// once, and none owns the log exclusively. The handle only fixes the payload
/// type it sends.
pub struct Sender<T> {
    _payload: PhantomData<T>,
}

impl<T> Sender<T> {
    /// Creates a send handle.
    pub(crate) fn new() -> (sender: Sender<T>) {
        Sender { _payload: PhantomData }
    }

    /// Appends `message` to the log and signals every registered wake flag,
    /// so that any receiver waiting past the old length re-checks and finds
    /// the new message. Sending never waits for a receiver, and sending with
    /// no receiver registered is only the append: the message stays in the
    /// log for every receiver yet to come.
    pub fn send(&self, log: &mut SharedLog<T>, message: T)
        ensures
            final(log)@ == old(log)@.push(message),
            final(log).wake_flags().len() == old(log).wake_flags().len(),
            final(log).all_signaled(),
    {
        let _index = log.append(message);
    }
}

} // verus!
