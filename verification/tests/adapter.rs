use ev_stream::ConnectError;
use ev_stream::EvStream;
use ev_stream::PollOutcome;
use ev_stream::SubscriptionToken;
use ev_stream::connect;

#[test]
fn fired_items_poll_in_firing_order() {
    let mut s: EvStream<u32> = EvStream::new(SubscriptionToken::new(1));
    s.deliver(10);
    s.deliver(20);
    s.deliver(30);
    assert_eq!(s.poll_item(), PollOutcome::Item(10));
    assert_eq!(s.poll_item(), PollOutcome::Item(20));
    assert_eq!(s.poll_item(), PollOutcome::Item(30));
    assert_eq!(s.poll_item(), PollOutcome::Suspend);
}

#[test]
fn fresh_stream_suspends() {
    let mut s: EvStream<u32> = EvStream::new(SubscriptionToken::new(1));
    assert_eq!(s.poll_item(), PollOutcome::Suspend);
    assert_eq!(s.poll_item(), PollOutcome::Suspend);
}

#[test]
fn dispose_while_alive_returns_the_token_once() {
    let mut s: EvStream<u32> = EvStream::new(SubscriptionToken::new(7));
    assert!(s.is_registered());
    let unregister = s.dispose();
    assert_eq!(unregister.expect("object alive: one unregistration owed").raw(), 7);
    assert!(!s.is_registered());
    let again = s.dispose();
    assert!(again.is_none());
}

#[test]
fn dispose_after_source_destroyed_skips_unregistration() {
    let mut s: EvStream<u32> = EvStream::new(SubscriptionToken::new(9));
    s.notify_source_destroyed();
    let unregister = s.dispose();
    assert!(unregister.is_none());
    assert!(!s.is_registered());
}

#[test]
fn disposal_is_idempotent() {
    let mut s: EvStream<u32> = EvStream::new(SubscriptionToken::new(4));
    let first = s.dispose();
    assert!(first.is_some());
    assert!(s.dispose().is_none());
    assert!(s.dispose().is_none());
}

#[test]
fn poll_after_dispose_finishes() {
    let mut s: EvStream<u32> = EvStream::new(SubscriptionToken::new(4));
    s.deliver(5);
    let _ = s.dispose();
    assert_eq!(s.poll_item(), PollOutcome::Item(5));
    assert_eq!(s.poll_item(), PollOutcome::Finished);
}

#[test]
fn two_adapters_each_receive_every_firing() {
    let mut a: EvStream<&str> = EvStream::new(SubscriptionToken::new(1));
    let mut b: EvStream<&str> = EvStream::new(SubscriptionToken::new(2));
    for item in ["first", "second"] {
        a.deliver(item);
        b.deliver(item);
    }
    assert_eq!(a.poll_item(), PollOutcome::Item("first"));
    assert_eq!(b.poll_item(), PollOutcome::Item("first"));
    assert_eq!(a.poll_item(), PollOutcome::Item("second"));
    assert_eq!(b.poll_item(), PollOutcome::Item("second"));
    assert_eq!(a.poll_item(), PollOutcome::Suspend);
    assert_eq!(b.poll_item(), PollOutcome::Suspend);
}

#[test]
fn scenario_fires_then_destroyed_then_dropped() {
    let mut s: EvStream<char> = EvStream::new(SubscriptionToken::new(11));
    s.deliver('A');
    s.deliver('B');
    s.notify_source_destroyed();
    assert_eq!(s.poll_item(), PollOutcome::Item('A'));
    assert_eq!(s.poll_item(), PollOutcome::Item('B'));
    assert_eq!(s.poll_item(), PollOutcome::Finished);
    let unregister = s.dispose();
    assert!(unregister.is_none());
}

#[test]
fn unknown_event_registration_fails_with_no_adapter() {
    let r: Result<EvStream<u32>, ConnectError> = connect(|| {
        Err(ConnectError::unknown_event(String::from("no-such-event")))
    });
    match r {
        Ok(_) => panic!("registration on an unknown event must not produce an adapter"),
        Err(e) => assert_eq!(e.event_name(), "no-such-event"),
    }
}

#[test]
fn successful_registration_wires_a_live_adapter() {
    let r: Result<EvStream<u32>, ConnectError> = connect(|| Ok(SubscriptionToken::new(42)));
    let mut s = r.expect("registration succeeded");
    assert!(s.is_active());
    assert_eq!(s.pending_len(), 0);
    s.deliver(1);
    assert_eq!(s.poll_item(), PollOutcome::Item(1));
    assert_eq!(s.dispose().expect("one unregistration owed").raw(), 42);
}

#[test]
fn deliver_with_applies_the_argument_rule() {
    let mut s: EvStream<u32> = EvStream::new(SubscriptionToken::new(3));
    // retain only the second callback argument, discarding the first
    s.deliver_with((String::from("widget"), 6u32), |args: (String, u32)| args.1);
    assert_eq!(s.poll_item(), PollOutcome::Item(6));
}

#[test]
fn size_hint_tracks_buffer_and_producer() {
    let mut s: EvStream<u32> = EvStream::new(SubscriptionToken::new(5));
    assert_eq!(s.size_hint(), (0, None));
    s.deliver(1);
    s.deliver(2);
    assert_eq!(s.size_hint(), (2, None));
    s.notify_source_destroyed();
    assert_eq!(s.size_hint(), (2, Some(2)));
    assert_eq!(s.poll_item(), PollOutcome::Item(1));
    assert_eq!(s.size_hint(), (1, Some(1)));
}

#[test]
fn pending_len_counts_buffered_items() {
    let mut s: EvStream<u8> = EvStream::new(SubscriptionToken::new(6));
    assert_eq!(s.pending_len(), 0);
    s.deliver(1);
    s.deliver(2);
    s.deliver(3);
    assert_eq!(s.pending_len(), 3);
    let _ = s.poll_item();
    assert_eq!(s.pending_len(), 2);
}
