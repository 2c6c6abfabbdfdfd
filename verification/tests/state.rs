use unibus::state::{ConnectionError, ConnectionState, LogLevel};
use unibus::store::StateStore;

fn fail(reason: &str) -> ConnectionState {
    ConnectionState::Fail(reason.to_string())
}

#[test]
fn states_are_equal_by_tag_and_reason() {
    assert_eq!(ConnectionState::Unknown, ConnectionState::Unknown);
    assert_eq!(ConnectionState::Ready, ConnectionState::Ready);
    assert_eq!(ConnectionState::Closed, ConnectionState::Closed);
    assert_eq!(fail("x"), fail("x"));
    assert_ne!(fail("x"), fail("y"));
    assert_ne!(fail("x"), ConnectionState::Ready);
    assert_ne!(ConnectionState::Unknown, ConnectionState::Closed);
    assert_ne!(ConnectionState::Ready, ConnectionState::Unknown);
}

#[test]
fn states_render_for_display() {
    assert_eq!(ConnectionState::Closed.to_text(), "CLOSED");
    assert_eq!(fail("broken pipe").to_text(), "ERROR: broken pipe");
    assert_eq!(ConnectionState::Ready.to_text(), "READY");
    assert_eq!(ConnectionState::Unknown.to_text(), "UNKNOWN");
}

#[test]
fn states_are_logged_by_severity() {
    assert_eq!(fail("x").log_level(), Some(LogLevel::Error));
    assert_eq!(ConnectionState::Ready.log_level(), Some(LogLevel::Warn));
    assert_eq!(ConnectionState::Closed.log_level(), Some(LogLevel::Warn));
    assert_eq!(ConnectionState::Unknown.log_level(), None);
}

#[test]
fn copies_of_states_are_equal() {
    let state = fail("x");
    assert_eq!(state.clone(), state);
    assert_eq!(ConnectionState::Ready.clone(), ConnectionState::Ready);
}

#[test]
fn errors_are_equal_by_tag_and_reason() {
    assert_eq!(ConnectionError::Closed, ConnectionError::Closed);
    assert_eq!(ConnectionError::NotReady, ConnectionError::NotReady);
    assert_eq!(ConnectionError::Fail("a".to_string()), ConnectionError::Fail("a".to_string()));
    assert_ne!(ConnectionError::Fail("a".to_string()), ConnectionError::Fail("b".to_string()));
    assert_ne!(ConnectionError::Closed, ConnectionError::NotReady);
    assert_eq!(ConnectionError::Fail("a".to_string()).clone(), ConnectionError::Fail("a".to_string()));
}

#[test]
fn errors_render_for_display() {
    assert_eq!(ConnectionError::Fail("refused".to_string()).to_text(), "AMQP error: refused");
    assert_eq!(ConnectionError::Closed.to_text(), "bunny connection closed");
    assert_eq!(ConnectionError::NotReady.to_text(), "bunny connection not ready");
}

#[test]
fn each_state_refuses_with_its_error() {
    assert_eq!(ConnectionError::for_state(&ConnectionState::Ready), None);
    assert_eq!(ConnectionError::for_state(&ConnectionState::Closed), Some(ConnectionError::Closed));
    assert_eq!(ConnectionError::for_state(&fail("x")), Some(ConnectionError::NotReady));
    assert_eq!(ConnectionError::for_state(&ConnectionState::Unknown), Some(ConnectionError::NotReady));
}

#[test]
fn store_starts_unknown() {
    let store = StateStore::new();
    assert_eq!(store.state(), ConnectionState::Unknown);
    let observer = store.subscribe();
    assert_eq!(*observer.borrow(), ConnectionState::Unknown);
    assert!(!observer.has_changed().unwrap());
}

#[test]
fn setting_the_same_failure_twice_notifies_once() {
    let mut store = StateStore::new();
    let mut observer = store.subscribe();
    assert!(store.set(fail("x")));
    assert!(observer.has_changed().unwrap());
    assert_eq!(*observer.borrow_and_update(), fail("x"));
    assert!(!store.set(fail("x")));
    assert!(!observer.has_changed().unwrap());
    assert_eq!(store.state(), fail("x"));
}

#[test]
fn setting_the_current_state_is_silent() {
    let mut store = StateStore::new();
    let observer = store.subscribe();
    assert!(!store.set(ConnectionState::Unknown));
    assert!(!observer.has_changed().unwrap());
}

#[test]
fn a_different_reason_is_a_change() {
    let mut store = StateStore::new();
    assert!(store.set(fail("x")));
    assert!(store.set(fail("y")));
    assert_eq!(store.state(), fail("y"));
}

#[test]
fn observer_reads_the_last_state_set() {
    let mut store = StateStore::new();
    let mut observer = store.subscribe();
    let states = vec![
        fail("a"),
        fail("a"),
        ConnectionState::Ready,
        fail("b"),
        fail("c"),
        ConnectionState::Ready,
        ConnectionState::Ready,
        ConnectionState::Closed,
    ];
    let mut notified = 0;
    for state in &states {
        if store.set(state.clone()) {
            notified += 1;
        }
    }
    assert_eq!(notified, 6);
    assert!(observer.has_changed().unwrap());
    assert_eq!(*observer.borrow_and_update(), ConnectionState::Closed);
    assert!(!observer.has_changed().unwrap());
}

#[test]
fn observer_that_polls_every_change_ends_on_the_last_state() {
    let mut store = StateStore::new();
    let mut observer = store.subscribe();
    let mut seen = Vec::new();
    for state in vec![fail("a"), fail("a"), ConnectionState::Ready, ConnectionState::Ready, fail("b")] {
        store.set(state);
        if observer.has_changed().unwrap() {
            seen.push(observer.borrow_and_update().clone());
        }
    }
    assert_eq!(seen, vec![fail("a"), ConnectionState::Ready, fail("b")]);
}

#[test]
fn late_observer_reads_the_current_state_at_once() {
    let mut store = StateStore::new();
    store.set(ConnectionState::Ready);
    let observer = store.subscribe();
    assert_eq!(*observer.borrow(), ConnectionState::Ready);
    assert!(!observer.has_changed().unwrap());
}

#[test]
fn state_is_published_without_observers() {
    let mut store = StateStore::new();
    drop(store.subscribe());
    assert!(store.set(ConnectionState::Ready));
    assert_eq!(*store.subscribe().borrow(), ConnectionState::Ready);
}

#[test]
fn observer_of_a_store_that_is_gone_is_pinned_at_closed() {
    let observer = StateStore::closed_observer();
    assert_eq!(*observer.borrow(), ConnectionState::Closed);
    assert!(observer.has_changed().is_err());
}

#[test]
fn new_observer_has_seen_the_current_state() {
    let mut store = StateStore::new();
    store.set(fail("x"));
    let mut observer = store.subscribe();
    assert!(!observer.has_changed().unwrap());
    assert_eq!(*observer.borrow_and_update(), fail("x"));
    store.set(ConnectionState::Ready);
    assert!(observer.has_changed().unwrap());
}
