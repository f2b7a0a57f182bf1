use std::task::Waker;

use version_watch::state::{State, UpdateResult};
use version_watch::subscriber::Subscriber;

fn handle() -> Waker {
    Waker::noop().clone()
}

#[test]
fn new_state_is_live_at_one() {
    let state = State::new();
    assert_eq!(state.version, 1);
    assert_eq!(state.wakers.len(), 0);
}

#[test]
fn new_subscriber_records_start() {
    let sub = Subscriber::new(7);
    assert_eq!(sub.observed_version, 7);
    assert_eq!(sub.waker_key, None);
}

#[test]
fn scenario_bump_then_close() {
    let mut state = State::new();
    let mut sub = Subscriber::new(1);

    assert_eq!(sub.poll_wait(&mut state, handle()), UpdateResult::StillPending);
    state.set_version(2);
    assert_eq!(sub.poll_wait(&mut state, handle()), UpdateResult::Updated(2));
    assert_eq!(sub.observed_version, 2);

    assert_eq!(sub.poll_wait(&mut state, handle()), UpdateResult::StillPending);
    state.set_version(0);
    assert_eq!(sub.poll_wait(&mut state, handle()), UpdateResult::Closed);
    assert_eq!(sub.observed_version, 2);
}

#[test]
fn coalesced_updates_deliver_latest() {
    let mut state = State::new();
    let mut sub = Subscriber::new(1);

    assert_eq!(sub.poll_wait(&mut state, handle()), UpdateResult::StillPending);
    state.set_version(2);
    state.set_version(3);
    assert_eq!(sub.poll_wait(&mut state, handle()), UpdateResult::Updated(3));
    assert_eq!(sub.observed_version, 3);
}

#[test]
fn closed_state_reports_closed_for_everyone() {
    let mut state = State::new();
    state.set_version(0);
    assert_eq!(state.wakers.len(), 0);

    let mut fresh = Subscriber::new(1);
    assert_eq!(fresh.poll_wait(&mut state, handle()), UpdateResult::Closed);

    let mut behind = Subscriber::new(0);
    assert_eq!(behind.poll_wait(&mut state, handle()), UpdateResult::Closed);
    assert_eq!(behind.observed_version, 0);
}

#[test]
fn closed_keeps_returning_closed() {
    let mut state = State::new();
    let mut sub = Subscriber::new(1);
    state.set_version(0);

    for _ in 0..3 {
        assert_eq!(sub.poll_wait(&mut state, handle()), UpdateResult::Closed);
        assert_eq!(sub.observed_version, 1);
    }
}

#[test]
fn equal_version_stays_pending() {
    let mut state = State::new();
    let mut sub = Subscriber::new(1);

    assert_eq!(sub.poll_wait(&mut state, handle()), UpdateResult::StillPending);
    state.set_version(1);
    assert_eq!(sub.poll_wait(&mut state, handle()), UpdateResult::StillPending);
    assert_eq!(sub.observed_version, 1);
}

#[test]
fn observer_ahead_stays_pending() {
    let mut state = State::new();
    let mut sub = Subscriber::new(5);

    assert_eq!(sub.poll_wait(&mut state, handle()), UpdateResult::StillPending);
    state.set_version(3);
    assert_eq!(sub.poll_wait(&mut state, handle()), UpdateResult::StillPending);
    state.set_version(6);
    assert_eq!(sub.poll_wait(&mut state, handle()), UpdateResult::Updated(6));
}

#[test]
fn one_set_wakes_all_observers() {
    let mut state = State::new();
    let mut first = Subscriber::new(1);
    let mut second = Subscriber::new(0);

    assert_eq!(first.poll_wait(&mut state, handle()), UpdateResult::StillPending);
    assert_eq!(second.poll_wait(&mut state, handle()), UpdateResult::Updated(1));
    assert_eq!(second.poll_wait(&mut state, handle()), UpdateResult::StillPending);
    assert_eq!(state.wakers.len(), 2);

    state.set_version(2);
    assert_eq!(state.wakers.len(), 0);
    assert_eq!(first.poll_wait(&mut state, handle()), UpdateResult::Updated(2));
    assert_eq!(second.poll_wait(&mut state, handle()), UpdateResult::Updated(2));
    assert_eq!(first.observed_version, 2);
    assert_eq!(second.observed_version, 2);
}

#[test]
fn increasing_sets_observe_latest() {
    let mut state = State::new();
    let mut sub = Subscriber::new(1);

    state.set_version(2);
    state.set_version(3);
    state.set_version(4);
    assert_eq!(sub.poll_wait(&mut state, handle()), UpdateResult::Updated(4));

    state.set_version(5);
    assert_eq!(sub.poll_wait(&mut state, handle()), UpdateResult::Updated(5));
    assert_eq!(sub.observed_version, 5);
}

#[test]
fn set_version_drains_waiters() {
    let mut state = State::new();
    let mut observed: u64 = 1;
    let mut key: Option<usize> = None;

    assert_eq!(
        state.poll_update(&mut observed, &mut key, handle()),
        UpdateResult::StillPending
    );
    assert_eq!(
        state.poll_update(&mut observed, &mut key, handle()),
        UpdateResult::StillPending
    );
    assert_eq!(state.wakers.len(), 2);

    state.set_version(9);
    assert_eq!(state.wakers.len(), 0);
    assert_eq!(state.version, 9);
}

#[test]
fn waker_key_tracks_registration() {
    let mut state = State::new();
    let mut first = Subscriber::new(1);
    let mut second = Subscriber::new(1);

    assert_eq!(first.poll_wait(&mut state, handle()), UpdateResult::StillPending);
    assert_eq!(first.waker_key, Some(1));
    assert_eq!(second.poll_wait(&mut state, handle()), UpdateResult::StillPending);
    assert_eq!(second.waker_key, Some(2));

    state.set_version(2);
    assert_eq!(first.poll_wait(&mut state, handle()), UpdateResult::Updated(2));
    assert_eq!(first.waker_key, None);
}

#[test]
fn set_lower_version_is_pending() {
    let mut state = State::new();
    state.set_version(5);
    let mut sub = Subscriber::new(5);

    state.set_version(3);
    assert_eq!(sub.poll_wait(&mut state, handle()), UpdateResult::StillPending);
    assert_eq!(sub.observed_version, 5);
}
