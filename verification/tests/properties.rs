use replay_channel::{ReplayChannel, SharedLog};

#[test]
fn late_join_catch_up() {
    let mut channel = ReplayChannel::new();
    let sender = channel.sender();

    sender.send(&mut channel.log, String::from("m1"));
    sender.send(&mut channel.log, String::from("m2"));

    let mut receiver = channel.receiver();
    assert_eq!(receiver.receive(&channel.log), "m1");
    assert_eq!(receiver.receive(&channel.log), "m2");

    sender.send(&mut channel.log, String::from("m3"));
    assert_eq!(receiver.receive(&channel.log), "m3");
}

#[test]
fn interleaved_catch_up_under_load() {
    let mut channel = ReplayChannel::new();
    let sender = channel.sender();
    let mut receiver = channel.receiver();

    sender.send(&mut channel.log, String::from("a"));
    assert_eq!(receiver.receive(&channel.log), "a");

    sender.send(&mut channel.log, String::from("b"));
    sender.send(&mut channel.log, String::from("c"));
    assert_eq!(receiver.receive(&channel.log), "b");
    assert_eq!(receiver.receive(&channel.log), "c");
}

#[test]
fn replay_is_complete_before_live_messages() {
    let mut channel = ReplayChannel::new();
    let sender = channel.sender();

    sender.send(&mut channel.log, 10);
    sender.send(&mut channel.log, 20);
    sender.send(&mut channel.log, 30);

    // A receiver created after three sends returns exactly those three
    // messages, in send order, before anything sent later.
    let mut receiver = channel.receiver();
    assert_eq!(receiver.receive(&channel.log), 10);
    assert_eq!(receiver.receive(&channel.log), 20);
    assert_eq!(receiver.receive(&channel.log), 30);
    assert_eq!(receiver.try_receive(&channel.log), None);

    sender.send(&mut channel.log, 40);
    assert_eq!(receiver.try_receive(&channel.log), Some(40));
}

#[test]
fn fan_out_delivers_same_sequence_to_all() {
    let mut channel = ReplayChannel::new();
    let sender = channel.sender();
    let mut receiver1 = channel.receiver();
    let mut receiver2 = channel.receiver();

    sender.send(&mut channel.log, 7);
    sender.send(&mut channel.log, 8);
    sender.send(&mut channel.log, 9);

    let seen1 = [
        receiver1.receive(&channel.log),
        receiver1.receive(&channel.log),
        receiver1.receive(&channel.log),
    ];
    let seen2 = [
        receiver2.receive(&channel.log),
        receiver2.receive(&channel.log),
        receiver2.receive(&channel.log),
    ];
    assert_eq!(seen1, [7, 8, 9]);
    assert_eq!(seen2, [7, 8, 9]);
}

#[test]
fn two_senders_lose_nothing() {
    let mut channel = ReplayChannel::new();
    let sender1 = channel.sender();
    let sender2 = channel.sender();

    sender1.send(&mut channel.log, String::from("A"));
    sender2.send(&mut channel.log, String::from("B"));

    let mut receiver = channel.receiver();
    let first = receiver.receive(&channel.log);
    let second = receiver.receive(&channel.log);
    let mut seen = vec![first, second];
    seen.sort();
    assert_eq!(seen, vec![String::from("A"), String::from("B")]);
    assert_eq!(receiver.try_receive(&channel.log), None);
}

#[test]
fn caught_up_receiver_waits_until_send() {
    let mut channel = ReplayChannel::new();
    let sender = channel.sender();
    let mut receiver = channel.receiver();

    // With cursor == length the receiver must not deliver.
    assert_eq!(receiver.try_receive(&channel.log), None);
    assert_eq!(receiver.try_receive(&channel.log), None);

    // The next send both grows the log and raises the wake flag, so the
    // woken receiver's re-check delivers immediately.
    sender.send(&mut channel.log, 5);
    assert!(receiver.check_wake(&mut channel.log));
    assert_eq!(receiver.try_receive(&channel.log), Some(5));
}

#[test]
fn wake_signal_coalesces_and_is_consumed() {
    let mut channel: ReplayChannel<u8> = ReplayChannel::new();
    let sender = channel.sender();
    let receiver = channel.receiver();

    // A fresh receiver's flag starts lowered.
    assert!(!receiver.check_wake(&mut channel.log));

    // Any number of appends coalesce into one pending signal.
    sender.send(&mut channel.log, 1);
    sender.send(&mut channel.log, 2);
    sender.send(&mut channel.log, 3);
    assert!(receiver.check_wake(&mut channel.log));
    assert!(!receiver.check_wake(&mut channel.log));
}

#[test]
fn history_is_idempotent_across_fresh_receivers() {
    let mut channel = ReplayChannel::new();
    let sender = channel.sender();

    sender.send(&mut channel.log, String::from("first"));
    sender.send(&mut channel.log, String::from("second"));

    let mut receiver1 = channel.receiver();
    assert_eq!(receiver1.receive(&channel.log), "first");
    assert_eq!(receiver1.receive(&channel.log), "second");

    // Re-reading the same log indices through a second fresh receiver yields
    // identical values: the log never mutates past entries.
    let mut receiver2 = channel.receiver();
    assert_eq!(receiver2.receive(&channel.log), "first");
    assert_eq!(receiver2.receive(&channel.log), "second");
}

#[test]
fn shared_log_contract_surface() {
    let mut log: SharedLog<u32> = SharedLog::new();
    assert_eq!(log.length(), 0);

    assert_eq!(log.append(100), 0);
    assert_eq!(log.append(200), 1);
    assert_eq!(log.append(300), 2);
    assert_eq!(log.length(), 3);

    assert_eq!(*log.read(0), 100);
    assert_eq!(*log.read(1), 200);
    assert_eq!(*log.read(2), 300);

    assert_eq!(log.register_wake_handle(), 0);
    assert_eq!(log.register_wake_handle(), 1);
}

#[test]
fn send_with_no_receivers_keeps_history() {
    let mut channel = ReplayChannel::new();
    let sender = channel.sender();

    // No receiver is registered: the send is only the append.
    sender.send(&mut channel.log, 42);
    assert_eq!(channel.log.length(), 1);

    // The message is still available to a receiver created afterwards.
    let mut receiver = channel.receiver();
    assert_eq!(receiver.receive(&channel.log), 42);
}
