use dynwatch::backoff::{Backoff, BackoffPolicy};
use dynwatch::event::Event;
use dynwatch::object::{Object, ResourceIdentity, Value};
use dynwatch::watch::{WatchAction, WatchEngine, WatchInput};

fn policy() -> BackoffPolicy {
    BackoffPolicy {
        initial_ms: 100,
        multiplier: 2,
        jitter_ms: 0,
        max_ms: 1000,
        reset_after_ms: 30_000,
    }
}

#[test]
fn delays_double_up_to_the_cap() {
    let mut b = Backoff::new(policy());
    let mut delays = Vec::new();
    for _ in 0..7 {
        delays.push(b.next_delay());
    }
    assert_eq!(delays, vec![100, 200, 400, 800, 1000, 1000, 1000]);
}

#[test]
fn jitter_is_added_before_the_cap() {
    let mut p = policy();
    p.jitter_ms = 5;
    let mut b = Backoff::new(p);
    assert_eq!(b.next_delay(), 100);
    assert_eq!(b.next_delay(), 205);
    assert_eq!(b.next_delay(), 415);
}

#[test]
fn healthy_connection_past_threshold_resets_the_delay() {
    let mut b = Backoff::new(policy());
    b.next_delay();
    b.next_delay();
    b.note_healthy(29_999);
    assert_eq!(b.next_delay(), 400);
    b.note_healthy(30_000);
    assert_eq!(b.next_delay(), 100);
}

fn watched(name: &str) -> Object {
    Object {
        identity: ResourceIdentity { namespace: None, name: name.to_string() },
        managed_fields: None,
        content: Value::Null,
    }
}

#[test]
fn consecutive_failures_never_shorten_the_delay() {
    let mut engine = WatchEngine::new(policy());
    let mut last: u64 = 0;
    for _ in 0..8 {
        match engine.step(WatchInput::Failed(0)) {
            WatchAction::Reconnect(d) => {
                assert!(d >= last);
                assert!(d <= policy().max_ms);
                last = d;
            },
            _ => panic!("a failure must schedule a reconnect"),
        }
    }
    assert_eq!(last, policy().max_ms);
}

#[test]
fn every_reconnect_begins_with_a_restart_event() {
    let mut engine = WatchEngine::new(policy());
    engine.step(WatchInput::Failed(0));
    let action = engine.step(WatchInput::Connected(vec![watched("a"), watched("b")]));
    assert_eq!(
        action,
        WatchAction::Emit(Event::Restarted(vec![watched("a"), watched("b")]))
    );
}

#[test]
fn incremental_events_pass_through_unchanged() {
    let mut engine = WatchEngine::new(policy());
    engine.step(WatchInput::Connected(Vec::new()));
    let action = engine.step(WatchInput::Received(Event::Applied(watched("a"))));
    assert_eq!(action, WatchAction::Emit(Event::Applied(watched("a"))));
}

#[test]
fn long_healthy_connection_rearms_the_backoff() {
    let mut engine = WatchEngine::new(policy());
    engine.step(WatchInput::Failed(0));
    engine.step(WatchInput::Failed(0));
    engine.step(WatchInput::Failed(0));
    match engine.step(WatchInput::Failed(31_000)) {
        WatchAction::Reconnect(d) => assert_eq!(d, policy().initial_ms),
        _ => panic!("a failure must schedule a reconnect"),
    }
}
