//! Behavioral tests of the watch: the poll-based state machine is driven
//! directly, with plain integers standing in for wake handles.

use sync_watch::watch::{Sender, WaitPoll, Watch};

#[test]
fn concrete_scenario_two_observers() {
    let mut w: Watch<u32, u32, 2> = Watch::new();
    let s: Sender = w.sender();
    let mut o1 = w.receiver();
    let mut o2 = w.receiver();

    s.send(&mut w, 10);
    assert_eq!(o1.wait(&mut w, 1), WaitPoll::Ready(10));
    assert_eq!(o2.wait(&mut w, 2), WaitPoll::Ready(10));

    s.send(&mut w, 20);
    s.send(&mut w, 30);
    assert_eq!(o1.wait(&mut w, 1), WaitPoll::Ready(30));
    assert_eq!(o2.wait(&mut w, 2), WaitPoll::Ready(30));
}

#[test]
fn last_value_wins_single_observer() {
    let mut w: Watch<u32, u32, 1> = Watch::new();
    let s = w.sender();
    let mut o = w.receiver();

    s.send(&mut w, 1);
    s.send(&mut w, 2);
    s.send(&mut w, 3);
    s.send(&mut w, 4);
    assert_eq!(o.wait(&mut w, 0), WaitPoll::Ready(4));
}

#[test]
fn no_replay_without_new_publish() {
    let mut w: Watch<u32, u32, 1> = Watch::new();
    let s = w.sender();
    let mut o = w.receiver();

    s.send(&mut w, 5);
    assert_eq!(o.wait(&mut w, 0), WaitPoll::Ready(5));
    assert_eq!(o.wait(&mut w, 0), WaitPoll::Pending);
    assert_eq!(o.wait(&mut w, 0), WaitPoll::Pending);

    s.send(&mut w, 6);
    assert_eq!(o.wait(&mut w, 0), WaitPoll::Ready(6));
}

#[test]
fn creation_horizon_skips_earlier_value() {
    let mut w: Watch<u32, u32, 2> = Watch::new();
    let s = w.sender();

    s.send(&mut w, 11);
    let mut o = w.receiver();
    assert_eq!(o.wait(&mut w, 0), WaitPoll::Pending);

    s.send(&mut w, 22);
    assert_eq!(o.wait(&mut w, 0), WaitPoll::Ready(22));
}

#[test]
fn observer_created_with_empty_watch_waits() {
    let mut w: Watch<u32, u32, 1> = Watch::new();
    let mut o = w.receiver();
    assert_eq!(o.wait(&mut w, 0), WaitPoll::Pending);
}

#[test]
fn capacity_exactly_r_succeeds_then_fails() {
    let mut w: Watch<u32, u32, 2> = Watch::new();
    assert!(w.try_receiver().is_some());
    assert!(w.try_receiver().is_some());
    assert!(w.try_receiver().is_none());
    assert!(w.try_receiver().is_none());
}

#[test]
fn capacity_zero_has_no_observers() {
    let mut w: Watch<u32, u32, 0> = Watch::new();
    assert!(w.try_receiver().is_none());
    let s = w.sender();
    s.send(&mut w, 9);
}

#[test]
fn publish_wakes_every_suspended_observer() {
    let mut w: Watch<u32, u32, 3> = Watch::new();
    let s = w.sender();
    let mut o1 = w.receiver();
    let mut o2 = w.receiver();
    let mut o3 = w.receiver();

    assert_eq!(o1.wait(&mut w, 101), WaitPoll::Pending);
    assert_eq!(o3.wait(&mut w, 103), WaitPoll::Pending);

    let woken = s.send(&mut w, 7);
    assert_eq!(woken, vec![101, 103]);

    assert_eq!(o1.wait(&mut w, 101), WaitPoll::Ready(7));
    assert_eq!(o2.wait(&mut w, 102), WaitPoll::Ready(7));
    assert_eq!(o3.wait(&mut w, 103), WaitPoll::Ready(7));
}

#[test]
fn waker_slots_clear_after_wake() {
    let mut w: Watch<u32, u32, 2> = Watch::new();
    let s = w.sender();
    let mut o1 = w.receiver();

    assert_eq!(o1.wait(&mut w, 41), WaitPoll::Pending);
    let first = s.send(&mut w, 1);
    assert_eq!(first, vec![41]);

    // Nothing re-registered, so the next publish wakes nobody.
    let second = s.send(&mut w, 2);
    assert!(second.is_empty());
}

#[test]
fn reregistered_waker_replaces_old_entry() {
    let mut w: Watch<u32, u32, 1> = Watch::new();
    let s = w.sender();
    let mut o = w.receiver();

    assert_eq!(o.wait(&mut w, 51), WaitPoll::Pending);
    assert_eq!(o.wait(&mut w, 52), WaitPoll::Pending);

    let woken = s.send(&mut w, 1);
    assert_eq!(woken, vec![52]);
}

#[test]
fn observers_consume_independently() {
    let mut w: Watch<u32, u32, 2> = Watch::new();
    let s = w.sender();
    let mut o1 = w.receiver();
    let mut o2 = w.receiver();

    s.send(&mut w, 100);
    assert_eq!(o1.wait(&mut w, 1), WaitPoll::Ready(100));
    // o1's consumption leaves the value available to o2.
    assert_eq!(o2.wait(&mut w, 2), WaitPoll::Ready(100));
    // But each observer sees it only once.
    assert_eq!(o1.wait(&mut w, 1), WaitPoll::Pending);
    assert_eq!(o2.wait(&mut w, 2), WaitPoll::Pending);

    s.send(&mut w, 200);
    assert_eq!(o2.wait(&mut w, 2), WaitPoll::Ready(200));
    assert_eq!(o1.wait(&mut w, 1), WaitPoll::Ready(200));
}

#[test]
fn many_senders_share_one_watch() {
    let mut w: Watch<u32, u32, 1> = Watch::new();
    let s1 = w.sender();
    let s2 = w.sender();
    let mut o = w.receiver();

    s1.send(&mut w, 1);
    s2.send(&mut w, 2);
    assert_eq!(o.wait(&mut w, 0), WaitPoll::Ready(2));
}

#[test]
fn cloned_payloads_are_delivered_to_all() {
    let mut w: Watch<String, u32, 3> = Watch::new();
    let s = w.sender();
    let mut o1 = w.receiver();
    let mut o2 = w.receiver();
    let mut o3 = w.receiver();

    s.send(&mut w, String::from("hello"));
    assert_eq!(o1.wait(&mut w, 1), WaitPoll::Ready(String::from("hello")));
    assert_eq!(o2.wait(&mut w, 2), WaitPoll::Ready(String::from("hello")));
    assert_eq!(o3.wait(&mut w, 3), WaitPoll::Ready(String::from("hello")));
}
