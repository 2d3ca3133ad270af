//! The channel's delivery guarantees, stated and proved over the models that
//! the handles' contracts use: the log's message sequence, a receiver's
//! cursor and delivered sequence, and the wake registry.

use vstd::prelude::*;
use crate::receiver::Receiver;
use crate::shared_log::SharedLog;

verus! {

/// Order-preservation: the values a single receiver has returned are exactly
/// the prefix of the log below its cursor, value for value, in the order they
/// were appended, starting at index 0.
pub proof fn lemma_order_preservation<T>(receiver: Receiver<T>, log: SharedLog<T>)
    requires
        receiver.wf(&log),
    ensures
        receiver.delivered().len() == receiver.cursor(),
        receiver.delivered() == log@.take(receiver.cursor()),
        forall|i: int| 0 <= i < receiver.cursor() ==> receiver.delivered()[i] == log@[i],
{
    assert(receiver.delivered() =~= log@.take(receiver.cursor()));
}

/// Replay completeness: a receiver created when the log held the messages
/// `at_creation` delivers exactly those messages, in send order, before it
/// delivers anything appended after its creation. The log only ever grows, so
/// `at_creation` is a prefix of the current log.
pub proof fn lemma_replay_completeness<T>(
    receiver: Receiver<T>,
    log: SharedLog<T>,
    at_creation: Seq<T>,
)
    requires
        receiver.wf(&log),
        at_creation.is_prefix_of(log@),
    ensures
        receiver.cursor() <= at_creation.len() ==> receiver.delivered() == at_creation.take(
            receiver.cursor(),
        ),
        receiver.cursor() >= at_creation.len() ==> receiver.delivered().take(at_creation.len() as int)
            == at_creation,
{
    if receiver.cursor() <= at_creation.len() {
        assert(receiver.delivered() =~= at_creation.take(receiver.cursor()));
    }
    if receiver.cursor() >= at_creation.len() {
        assert(receiver.delivered().take(at_creation.len() as int) =~= at_creation);
    }
}

/// No loss under concurrent senders: two appends of `a` and `b` onto the same
/// log leave, in whichever order they interleave, a log holding the same
/// messages — the old ones plus one occurrence each of `a` and `b`. Neither
/// value is dropped, neither is duplicated, whatever the interleaving.
pub proof fn lemma_no_loss_under_concurrent_senders<T>(base: Seq<T>, a: T, b: T)
    ensures
        base.push(a).push(b).to_multiset() == base.push(b).push(a).to_multiset(),
        base.push(a).push(b).to_multiset() == base.to_multiset().insert(a).insert(b),
        a != b ==> base.push(a).push(b).to_multiset().count(a) == base.to_multiset().count(a) + 1,
        a != b ==> base.push(a).push(b).to_multiset().count(b) == base.to_multiset().count(b) + 1,
        base.push(a).push(b).len() == base.len() + 2,
{
    broadcast use vstd::seq_lib::group_to_multiset_ensures;
    broadcast use vstd::multiset::group_multiset_axioms;

    assert(base.to_multiset().insert(a).insert(b) =~= base.to_multiset().insert(b).insert(a));
}

/// A receiver that has drained the log has delivered every message in it, in
/// append order — together with [`lemma_no_loss_under_concurrent_senders`],
/// a receiver that drains past two concurrent sends has returned both values
/// exactly once each.
pub proof fn lemma_drained_receiver_has_all<T>(receiver: Receiver<T>, log: SharedLog<T>)
    requires
        receiver.wf(&log),
        receiver.cursor() == log@.len(),
    ensures
        receiver.delivered() == log@,
{
    assert(receiver.delivered() =~= log@);
}

/// Multi-receiver fan-out: two receivers over the same log that have advanced
/// equally far have delivered exactly the same values in the same order. Each
/// cursor is private, so neither receiver's progress constrains the other's.
pub proof fn lemma_fanout_agreement<T>(
    first: Receiver<T>,
    second: Receiver<T>,
    log: SharedLog<T>,
)
    requires
        first.wf(&log),
        second.wf(&log),
        first.cursor() == second.cursor(),
    ensures
        first.delivered() == second.delivered(),
{
    assert(first.delivered() =~= second.delivered());
}

/// Receivers never disagree: of any two receivers over the same log, the one
/// that has advanced less far has delivered a prefix of what the other has —
/// all receivers see the same total log in the same relative order, differing
/// only in how far they have read.
pub proof fn lemma_receivers_agree<T>(behind: Receiver<T>, ahead: Receiver<T>, log: SharedLog<T>)
    requires
        behind.wf(&log),
        ahead.wf(&log),
        behind.cursor() <= ahead.cursor(),
    ensures
        behind.delivered().is_prefix_of(ahead.delivered()),
{
    assert(behind.delivered() =~= ahead.delivered().take(behind.cursor()));
}

/// Idempotent history: an append never mutates or removes what the log
/// already holds. Every index written before keeps its value, so re-reading
/// an already-delivered index — for instance through a second, fresh
/// receiver — yields an identical value.
pub proof fn lemma_history_stable<T>(before: Seq<T>, after: Seq<T>, message: T)
    requires
        after == before.push(message),
    ensures
        after.len() == before.len() + 1,
        forall|i: int| 0 <= i < before.len() ==> after[i] == before[i],
        before.is_prefix_of(after),
{
    assert(after.take(before.len() as int) =~= before);
}

/// Suspend/wake correctness: an append to a log never loses the wakeup of a
/// caught-up receiver. The receiver was caught up before the append — its
/// next step would wait — and the append both grows the log past its cursor
/// and raises its wake flag, so the woken receiver's re-check finds the new
/// message. The premises on `after` are exactly what an append ensures.
pub proof fn lemma_no_lost_wakeup<T>(
    receiver: Receiver<T>,
    before: SharedLog<T>,
    after: SharedLog<T>,
    message: T,
)
    requires
        receiver.wf(&before),
        receiver.cursor() == before@.len(),
        after@ == before@.push(message),
        after.wake_flags().len() == before.wake_flags().len(),
        after.all_signaled(),
    ensures
        receiver.wf(&after),
        receiver.cursor() < after@.len(),
        after.wake_flag(receiver.wake_handle()),
{
}

} // verus!
