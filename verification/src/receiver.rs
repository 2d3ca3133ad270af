//! The receiving side of the channel: a private cursor into the shared log
//! plus the wake handle registered for this receiver.

use vstd::prelude::*;
use crate::shared_log::SharedLog;

verus! {

/// A receive handle over a [`SharedLog`].
///
/// A receiver owns a private cursor: the index of the next message to
/// deliver. A fresh receiver starts at cursor 0, so it replays the complete
/// history before seeing anything live. The ghost `delivered` sequence
/// records every message the receiver has returned, in delivery order; the
/// well-formedness invariant [`Receiver::wf`] pins it to the log prefix below
/// the cursor, which is the order-preservation guarantee.
///
/// A receive handle is exclusive to one consumer at a time — delivery takes
/// `&mut self` — so each log index is delivered exactly once to this
/// receiver's stream. Consumers that want independent streams each take a
/// handle of their own.
pub struct Receiver<T> {
    cursor: usize,
    wake_handle: usize,
    delivered: Ghost<Seq<T>>,
}

impl<T> Receiver<T> {
    /// The index of the next message this receiver will deliver.
    pub closed spec fn cursor(&self) -> int {
        self.cursor as int
    }

    /// The wake handle this receiver registered with the log.
    pub closed spec fn wake_handle(&self) -> int {
        self.wake_handle as int
    }

    /// Every message this receiver has delivered, in delivery order.
    pub closed spec fn delivered(&self) -> Seq<T> {
        self.delivered@
    }

    /// The receiver is well formed with respect to `log`: its cursor is in
    /// bounds, its wake handle is registered, and what it has delivered is
    /// exactly the log prefix below the cursor, in log order.
    pub open spec fn wf(&self, log: &SharedLog<T>) -> bool {
        &&& 0 <= self.cursor() <= log@.len()
        &&& 0 <= self.wake_handle() < log.wake_count()
        &&& self.delivered().len() == self.cursor()
        &&& forall|i: int| 0 <= i < self.cursor() ==> self.delivered()[i] == log@[i]
    }

    /// Creates a receiver over `log` with its cursor at 0, registering a
    /// fresh wake handle. Starting at 0 is what produces full-history replay:
    /// everything already in the log is still ahead of the new cursor.
    pub(crate) fn new(log: &mut SharedLog<T>) -> (receiver: Receiver<T>)
        ensures
            final(log)@ == old(log)@,
            final(log).wake_flags() == old(log).wake_flags().push(false),
            receiver.wf(final(log)),
            receiver.cursor() == 0,
            receiver.delivered() == Seq::<T>::empty(),
            receiver.wake_handle() == old(log).wake_count(),
    {
        let handle = log.register_wake_handle();
        Receiver { cursor: 0, wake_handle: handle, delivered: Ghost(Seq::empty()) }
    }
}

impl<T: Clone> Receiver<T> {
    /// Delivers the message at this receiver's cursor and advances the cursor
    /// by one. Callers confirm first that the cursor is still behind the end
    /// of the log (the Draining state); a caught-up receiver must instead
    /// wait for an append, which is the host runtime's affair — see
    /// [`Receiver::try_receive`].
    ///
    /// The message is cloned out of the log, so the log keeps every entry for
    /// receivers yet to come.
    pub fn receive(&mut self, log: &SharedLog<T>) -> (message: T)
        requires
            old(self).wf(log),
            old(self).cursor() < log@.len(),
        ensures
            final(self).wf(log),
            final(self).cursor() == old(self).cursor() + 1,
            final(self).wake_handle() == old(self).wake_handle(),
            final(self).delivered() == old(self).delivered().push(log@[old(self).cursor()]),
            cloned(log@[old(self).cursor()], message),
    {
        proof {
            log.lemma_length_fits();
        }
        let slot = log.read(self.cursor);
        self.cursor = self.cursor + 1;
        self.delivered = Ghost(self.delivered@.push(*slot));
        slot.clone()
    }

    /// One step of the receiver's state machine: delivers the next message if
    /// the cursor is behind the end of the log (Draining), and returns `None`
    /// if the receiver has caught up (Waiting). `None` is exactly the "must
    /// not return yet" outcome: the caller suspends on the wake handle and
    /// re-checks after the next append.
    pub fn try_receive(&mut self, log: &SharedLog<T>) -> (outcome: Option<T>)
        requires
            old(self).wf(log),
        ensures
            final(self).wf(log),
            final(self).wake_handle() == old(self).wake_handle(),
            outcome is Some <==> old(self).cursor() < log@.len(),
            outcome is Some ==> {
                &&& final(self).cursor() == old(self).cursor() + 1
                &&& final(self).delivered() == old(self).delivered().push(
                    log@[old(self).cursor()],
                )
                &&& cloned(log@[old(self).cursor()], outcome->0)
            },
            outcome is None ==> *final(self) == *old(self),
    {
        if self.cursor < log.length() {
            Some(self.receive(log))
        } else {
            None
        }
    }

    /// Consumes this receiver's wake signal, reporting whether it had been
    /// raised since the last check. The signal carries no payload and
    /// coalesces any number of appends: a waiting caller that sees `true`
    /// re-checks the log length, and one that sees `false` keeps waiting.
    pub fn check_wake(&self, log: &mut SharedLog<T>) -> (was_signaled: bool)
        requires
            self.wake_handle() < old(log).wake_count(),
        ensures
            final(log)@ == old(log)@,
            final(log).wake_flags() == old(log).wake_flags().update(self.wake_handle(), false),
            was_signaled == old(log).wake_flag(self.wake_handle()),
    {
        let signaled = log.wake_ready(self.wake_handle);
        log.clear_wake(self.wake_handle);
        signaled
    }
}

} // verus!
