//! The shared message log: an append-only sequence of messages plus the
//! registry of per-receiver wake flags that an append signals.

use vstd::prelude::*;
use vstd::pervasive::VecAdditionalExecFns;

verus! {

/// An append-only log of messages together with a wake registry.
///
/// Messages occupy indices `0..length` and, once written, are never mutated
/// or removed; the length only grows. Every receiver registers one wake flag
/// at construction time; an append raises every registered flag, so that a
/// receiver that had caught up with the log learns that it must re-check the
/// length. The flag carries no payload and coalesces any number of appends.
pub struct SharedLog<T> {
    messages: Vec<T>,
    wake_flags: Vec<bool>,
}

impl<T> View for SharedLog<T> {
    type V = Seq<T>;

    /// The mathematical model of the log: the sequence of messages appended so
    /// far, in append order.
    closed spec fn view(&self) -> Seq<T> {
        self.messages@
    }
}

impl<T> SharedLog<T> {
    /// The wake registry: one flag per registered receiver, `true` when the
    /// receiver has been signaled since it last checked.
    pub closed spec fn wake_flags(&self) -> Seq<bool> {
        self.wake_flags@
    }

    /// How many wake handles have been registered.
    pub open spec fn wake_count(&self) -> int {
        self.wake_flags().len() as int
    }

    /// The state of one wake flag.
    pub open spec fn wake_flag(&self, handle: int) -> bool {
        self.wake_flags()[handle]
    }

    /// Every registered wake flag is raised.
    pub open spec fn all_signaled(&self) -> bool {
        forall|h: int| 0 <= h < self.wake_count() ==> self.wake_flag(h)
    }

    /// Creates an empty log with an empty wake registry.
    pub fn new() -> (log: SharedLog<T>)
        ensures
            log@ == Seq::<T>::empty(),
            log.wake_flags() == Seq::<bool>::empty(),
    {
        SharedLog { messages: Vec::new(), wake_flags: Vec::new() }
    }

    /// The log's length fits in `usize`: it counts the elements of a vector.
    pub proof fn lemma_length_fits(&self)
        ensures
            self@.len() <= usize::MAX,
    {
        broadcast use vstd::std_specs::vec::axiom_spec_len;

        assert(vstd::std_specs::vec::spec_vec_len(&self.messages) == self.messages@.len());
    }

    /// The number of messages appended so far.
    pub fn length(&self) -> (n: usize)
        ensures
            n == self@.len(),
    {
        self.messages.len()
    }

    /// Appends `message` at the next free index and returns that index.
    ///
    /// Existing entries are untouched, so every index handed out before stays
    /// valid and keeps its value. As a side effect every registered wake flag
    /// is raised: receivers that were waiting for the log to grow are told to
    /// re-check its length.
    pub fn append(&mut self, message: T) -> (index: usize)
        ensures
            index == old(self)@.len(),
            final(self)@ == old(self)@.push(message),
            final(self).wake_flags().len() == old(self).wake_flags().len(),
            final(self).all_signaled(),
    {
        let index = self.messages.len();
        self.messages.push(message);
        let mut h: usize = 0;
        while h < self.wake_flags.len()
            invariant
                h <= self.wake_flags@.len(),
                self@ == old(self)@.push(message),
                self.wake_flags@.len() == old(self).wake_flags@.len(),
                forall|j: int| 0 <= j < h ==> self.wake_flags@[j],
            decreases self.wake_flags@.len() - h,
        {
            self.wake_flags.set(h, true);
            h = h + 1;
        }
        index
    }

    /// Returns the message at `index`; callers confirm the bound first.
    pub fn read(&self, index: usize) -> (message: &T)
        requires
            index < self@.len(),
        ensures
            *message == self@[index as int],
    {
        &self.messages[index]
    }

    /// Registers a fresh wake handle, to be used by exactly one receiver, and
    /// returns it. The new flag starts lowered: a fresh receiver checks the
    /// log before it ever waits, so it cannot miss the messages already there.
    pub fn register_wake_handle(&mut self) -> (handle: usize)
        ensures
            handle == old(self).wake_count(),
            final(self)@ == old(self)@,
            final(self).wake_flags() == old(self).wake_flags().push(false),
    {
        let handle = self.wake_flags.len();
        self.wake_flags.push(false);
        handle
    }

    /// Reports whether the wake flag behind `handle` is raised.
    pub(crate) fn wake_ready(&self, handle: usize) -> (signaled: bool)
        requires
            handle < self.wake_count(),
        ensures
            signaled == self.wake_flag(handle as int),
    {
        self.wake_flags[handle]
    }

    /// Lowers the wake flag behind `handle`, consuming the coalesced signal.
    pub(crate) fn clear_wake(&mut self, handle: usize)
        requires
            handle < old(self).wake_count(),
        ensures
            final(self)@ == old(self)@,
            final(self).wake_flags() == old(self).wake_flags().update(handle as int, false),
    {
        self.wake_flags.set(handle, false);
    }
}

} // verus!
