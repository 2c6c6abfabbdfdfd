//! The state of a connection together with its broadcast to observers.
//!
//! The store is the sending half of a `tokio` watch channel: the channel
//! holds the current state, and every change of state is published on it.
//! Observers hold receiving halves, which show the latest published value
//! and wake when it changes. Verus cannot look inside the channel: what it
//! holds is named by [`published`], what a receiver has seen of it by
//! [`seen`], and the calls on it are trusted wrappers in this file.

use vstd::prelude::*;
use tokio::sync::watch::{Receiver, Sender};
use crate::state::{ConnectionState, StateView};

verus! {

#[verifier::external_type_specification]
#[verifier::external_body]
#[verifier::reject_recursive_types(T)]
pub struct ExSender<T>(Sender<T>);

#[verifier::external_type_specification]
#[verifier::external_body]
#[verifier::reject_recursive_types(T)]
pub struct ExReceiver<T>(Receiver<T>);

/// The value that the channel of `sender` holds: what its receivers read.
/// A store owns its sender alone and never clones it, so the value changes
/// through [`watch_publish`] and through nothing else.
pub uninterp spec fn published(sender: Sender<ConnectionState>) -> StateView;

/// The state that an observer has seen: the value that its channel held at
/// the version that the receiver stands at. A receiver stands at the version
/// at which it was made until it marks a later one as seen, and the value of
/// a version never changes, so this depends on the receiver alone. It is
/// what the first read of a new observer shows, and the value against which
/// the observer tells that the state has changed.
pub uninterp spec fn seen(receiver: Receiver<ConnectionState>) -> StateView;

/// Calls `tokio::sync::watch::Sender::new`. Trusted: the new channel holds
/// `initial`.
#[verifier::external_body]
fn watch_open(initial: ConnectionState) -> (sender: Sender<ConnectionState>)
    ensures
        published(sender) == initial@,
{
    Sender::new(initial)
}

/// Calls `tokio::sync::watch::Sender::send_replace`, which stores the value
/// and notifies all receivers, also when there are none. Trusted: afterwards
/// the channel holds `state`; the call does not panic.
#[verifier::external_body]
fn watch_publish(sender: &mut Sender<ConnectionState>, state: ConnectionState)
    ensures
        published(*final(sender)) == state@,
{
    sender.send_replace(state);
}

/// Calls `tokio::sync::watch::Sender::borrow` and copies the value that it
/// shows. Trusted: the copy is the value that the channel holds.
#[verifier::external_body]
fn watch_current(sender: &Sender<ConnectionState>) -> (state: ConnectionState)
    ensures
        state@ == published(*sender),
{
    sender.borrow().clone()
}

/// Calls `tokio::sync::watch::Sender::subscribe`, which makes a receiver
/// that stands at the channel's current version. Trusted: the new receiver
/// has seen the value that the channel holds now. Nothing is claimed of what
/// it shows after later changes: that follows the channel.
#[verifier::external_body]
fn watch_subscribe(sender: &Sender<ConnectionState>) -> (receiver: Receiver<ConnectionState>)
    ensures
        seen(receiver) == published(*sender),
{
    sender.subscribe()
}

/// The current state of a connection, held in the channel on which its
/// changes are published.
pub struct StateStore {
    sender: Sender<ConnectionState>,
}

impl View for StateStore {
    type V = StateView;

    /// The current state, which is what observers of the store read.
    closed spec fn view(&self) -> StateView {
        published(self.sender)
    }
}

/// Whether setting `next` while `current` is the state notifies observers:
/// it does unless the two are equal.
pub open spec fn notifies(current: StateView, next: StateView) -> bool {
    current != next
}

/// The state after the states of `states` were set one after the other,
/// starting from `start`.
pub open spec fn after_sets(start: StateView, states: Seq<StateView>) -> StateView
    decreases states.len(),
{
    if states.len() == 0 {
        start
    } else {
        let before = after_sets(start, states.drop_last());
        if notifies(before, states.last()) {
            states.last()
        } else {
            before
        }
    }
}

/// The number of notifications that observers got while the states of
/// `states` were set one after the other, starting from `start`.
pub open spec fn notifications(start: StateView, states: Seq<StateView>) -> nat
    decreases states.len(),
{
    if states.len() == 0 {
        0
    } else {
        let before = after_sets(start, states.drop_last());
        notifications(start, states.drop_last()) + if notifies(before, states.last()) {
            1nat
        } else {
            0nat
        }
    }
}

impl StateStore {
    /// A store in the starting state, `Unknown`.
    pub fn new() -> (store: Self)
        ensures
            store@ == StateView::Unknown,
    {
        StateStore { sender: watch_open(ConnectionState::Unknown) }
    }

    /// The current state.
    pub fn state(&self) -> (state: ConnectionState)
        ensures
            state@ == self@,
    {
        watch_current(&self.sender)
    }

    /// Sets the state. Setting a state equal to the current one does
    /// nothing; any other is stored and published to all observers, once.
    /// Returns whether observers were notified.
    pub fn set(&mut self, state: ConnectionState) -> (changed: bool)
        ensures
            final(self)@ == state@,
            changed == notifies(old(self)@, state@),
    {
        let current = watch_current(&self.sender);
        if current == state {
            return false;
        }
        watch_publish(&mut self.sender, state);
        true
    }

    /// A new observer of the store. It has seen the current state, which
    /// is what its first read shows without waiting; it wakes whenever a
    /// later change is published.
    pub fn subscribe(&self) -> (observer: Receiver<ConnectionState>)
        ensures
            seen(observer) == self@,
    {
        watch_subscribe(&self.sender)
    }

    /// The observer that stands for a store that is gone: it has seen
    /// `Closed`, and as its channel has no sender any more it never sees
    /// anything else.
    pub fn closed_observer() -> (observer: Receiver<ConnectionState>)
        ensures
            seen(observer) == StateView::Closed,
    {
        let sender = watch_open(ConnectionState::Closed);
        watch_subscribe(&sender)
    }
}

/// After any run of `set` calls, the state of the store, which is what its
/// observers read, is the last state that was set.
pub proof fn lemma_last_state_wins(start: StateView, states: Seq<StateView>)
    requires
        states.len() > 0,
    ensures
        after_sets(start, states) == states.last(),
{
}

/// Setting the same state twice in a row notifies observers at most once:
/// once where the state differs from the one before, and never for the
/// second call.
pub proof fn lemma_duplicate_is_silent(start: StateView, state: StateView)
    ensures
        notifications(start, seq![state, state]) == (if start == state {
            0nat
        } else {
            1nat
        }),
        !notifies(after_sets(start, seq![state]), state),
{
    let twice = seq![state, state];
    assert(twice.drop_last() =~= seq![state]);
    assert(seq![state].drop_last() =~= Seq::<StateView>::empty());
    reveal_with_fuel(after_sets, 3);
    reveal_with_fuel(notifications, 3);
}

/// A run of `set` calls notifies observers once for each state that differs
/// from the state before it, and so never more often than there were calls.
pub proof fn lemma_notifications_are_bounded(start: StateView, states: Seq<StateView>)
    ensures
        notifications(start, states) <= states.len(),
    decreases states.len(),
{
    if states.len() > 0 {
        lemma_notifications_are_bounded(start, states.drop_last());
    }
}

} // verus!
