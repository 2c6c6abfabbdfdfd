//! One supervised connection: its record, and the protocol by which it
//! connects, applies its topology, retries, fails and closes.
//!
//! The record makes no call on the transport and never waits. Whoever owns
//! it, and with it the exclusive right to change it, feeds it events and
//! carries out the steps that it answers with: dial the broker, open a
//! channel, make a declare call, register the error handler. The decisions
//! are all taken here.

pub mod options;

use vstd::prelude::*;
use vstd::string::StringExecFns;
use std::time::Duration;
use lapin::types::FieldTable;
use tokio::sync::watch::Receiver;
use crate::arguments::table_entries;
use crate::timing::{seconds, whole_millis};
use crate::connection::options::{ConnectionOptions, OptionsView};
use crate::state::{refusal, ConnectionError, ConnectionState, StateView};
use crate::store::{notifies, seen, StateStore};
use crate::topology::applier::{
    all_calls, lemma_calls_come_in_order, lemma_plans_are_not_empty, outcome_view, plans, successes,
    ApplierView, ApplyStep, StepView, TopologyApplier,
};
use crate::topology::{Command, CommandView, TopologyItem};

verus! {

/// Where a connect attempt stands.
#[derive(Debug, Clone, Copy, PartialEq, Eq, Structural)]
pub enum Phase {
    /// No attempt is in progress.
    Idle,
    /// The broker is being dialed.
    Dialing,
    /// The channel for the topology is being opened.
    OpeningChannel,
    /// A call of the topology is outstanding.
    Applying,
    /// The error handler is being registered on the new connection.
    Registering,
}

/// What happened outside, as the owner of the record reports it. `C` is the
/// transport's connection handle.
pub enum ConnectEvent<C> {
    /// An attempt is due: the record was just built, or the transport
    /// reported an error and asks for an immediate reconnect.
    Start,
    /// An attempt is due in the retry loop, whose pause is over.
    RetryWake,
    /// The dialing ended: with a connection, or with the description of the
    /// error.
    Dialed(Result<C, String>),
    /// The opening of the channel ended.
    ChannelOpened(Result<(), String>),
    /// The outstanding call of the topology ended.
    CommandDone(Result<(), String>),
    /// The error handler is registered.
    HandlerRegistered,
}

/// Mathematical value of a [`ConnectEvent`].
pub enum EventView<C> {
    Start,
    RetryWake,
    Dialed(Result<C, Seq<char>>),
    ChannelOpened(Result<(), Seq<char>>),
    CommandDone(Result<(), Seq<char>>),
    HandlerRegistered,
}

impl<C> View for ConnectEvent<C> {
    type V = EventView<C>;

    open spec fn view(&self) -> EventView<C> {
        match self {
            ConnectEvent::Start => EventView::Start,
            ConnectEvent::RetryWake => EventView::RetryWake,
            ConnectEvent::Dialed(result) => EventView::Dialed(
                match result {
                    Ok(connection) => Ok(*connection),
                    Err(reason) => Err(reason@),
                },
            ),
            ConnectEvent::ChannelOpened(result) => EventView::ChannelOpened(outcome_view(*result)),
            ConnectEvent::CommandDone(result) => EventView::CommandDone(outcome_view(*result)),
            ConnectEvent::HandlerRegistered => EventView::HandlerRegistered,
        }
    }
}

/// What the owner of the record has to do next.
#[derive(Debug)]
pub enum ConnectStep {
    /// Dial the broker at the record's uri with its options, and report
    /// [`ConnectEvent::Dialed`].
    Dial,
    /// Open a channel on the new connection, and report
    /// [`ConnectEvent::ChannelOpened`].
    OpenChannel,
    /// Make this call on the channel, and report
    /// [`ConnectEvent::CommandDone`].
    Run(Command),
    /// Register the error handler on the new connection, and report
    /// [`ConnectEvent::HandlerRegistered`].
    RegisterHandler,
    /// The attempt is over. `success` says that the connection needs no
    /// further attempt: it is ready, or closed. `start_retry` says that a
    /// retry loop has to be started now.
    Done { success: bool, start_retry: bool },
    /// The event does not fit the state of the record. Nothing changed.
    Unexpected,
}

/// Mathematical value of a [`ConnectStep`].
pub enum ConnectStepView {
    Dial,
    OpenChannel,
    Run(CommandView),
    RegisterHandler,
    Done { success: bool, start_retry: bool },
    Unexpected,
}

impl View for ConnectStep {
    type V = ConnectStepView;

    open spec fn view(&self) -> ConnectStepView {
        match self {
            ConnectStep::Dial => ConnectStepView::Dial,
            ConnectStep::OpenChannel => ConnectStepView::OpenChannel,
            ConnectStep::Run(command) => ConnectStepView::Run(command@),
            ConnectStep::RegisterHandler => ConnectStepView::RegisterHandler,
            ConnectStep::Done { success, start_retry } => ConnectStepView::Done {
                success: *success,
                start_retry: *start_retry,
            },
            ConnectStep::Unexpected => ConnectStepView::Unexpected,
        }
    }
}

/// How the application of a topology item ended; the item is given by its
/// index in the topology.
#[derive(Debug, Clone, Copy, PartialEq, Eq, Structural)]
pub enum ItemNote {
    /// All calls of the item succeeded.
    Applied(usize),
    /// A call of the item failed.
    Failed(usize),
}

/// Mathematical value of an [`ItemNote`].
pub enum NoteView {
    Applied(nat),
    Failed(nat),
}

impl View for ItemNote {
    type V = NoteView;

    open spec fn view(&self) -> NoteView {
        match self {
            ItemNote::Applied(item) => NoteView::Applied(*item as nat),
            ItemNote::Failed(item) => NoteView::Failed(*item as nat),
        }
    }
}

/// The view of an optional note.
pub open spec fn note_view(note: Option<ItemNote>) -> Option<NoteView> {
    match note {
        Some(n) => Some(n@),
        None => None,
    }
}

/// The answer to an event.
#[derive(Debug)]
pub struct Advance {
    /// What to do next.
    pub step: ConnectStep,
    /// The topology item whose application ended with this event, if one
    /// did.
    pub settled: Option<ItemNote>,
    /// Whether the state changed, and observers were notified.
    pub changed: bool,
}

/// Mathematical value of an [`Advance`].
pub struct AdvanceView {
    pub step: ConnectStepView,
    pub settled: Option<NoteView>,
    pub changed: bool,
}

impl View for Advance {
    type V = AdvanceView;

    open spec fn view(&self) -> AdvanceView {
        AdvanceView { step: self.step@, settled: note_view(self.settled), changed: self.changed }
    }
}

/// The answer to a close request.
pub struct Closing<C> {
    /// The connection that was live, where there was one.
    pub handle: Option<C>,
    /// Whether the state changed, and observers were notified.
    pub changed: bool,
}

/// The answer to an error that the transport reported.
#[derive(Debug, Clone, Copy, PartialEq, Eq, Structural)]
pub struct Failure {
    /// Whether to start a connect attempt at once.
    pub reconnect: bool,
    /// Whether the state changed, and observers were notified.
    pub changed: bool,
}

/// The record of one supervised connection. `C` is the transport's
/// connection handle; the record owns the live one.
pub struct Connection<C> {
    options: ConnectionOptions,
    topology: Vec<TopologyItem>,
    store: StateStore,
    live: Option<C>,
    candidate: Option<C>,
    phase: Phase,
    applier: TopologyApplier,
    from_retry: bool,
    retry_pending: bool,
}

/// Mathematical value of a [`Connection`].
pub struct ConnectionView<C> {
    pub options: OptionsView,
    pub topology: Seq<TopologyItem>,
    /// The lifecycle state, which is what observers read.
    pub state: StateView,
    /// The live connection.
    pub live: Option<C>,
    /// The connection that the attempt in progress has dialed and not yet
    /// promoted.
    pub candidate: Option<C>,
    pub phase: Phase,
    /// Progress of the attempt in progress through the topology.
    pub applier: ApplierView,
    /// The attempt in progress was started by the retry loop.
    pub from_retry: bool,
    /// A retry loop exists.
    pub retry_pending: bool,
}

impl<C> ConnectionView<C> {
    /// A record that has not tried to connect yet.
    pub open spec fn initial(options: OptionsView, topology: Seq<TopologyItem>) -> ConnectionView<C> {
        ConnectionView {
            options,
            topology,
            state: StateView::Unknown,
            live: None,
            candidate: None,
            phase: Phase::Idle,
            applier: ApplierView::start(),
            from_retry: false,
            retry_pending: false,
        }
    }

    /// The plans of the topology.
    pub open spec fn plans(self) -> Seq<Seq<CommandView>> {
        plans(self.topology)
    }

    /// What holds of every record: it holds a live connection exactly
    /// while it is `Ready`; it holds a dialed connection exactly in the
    /// phases after the dialing; an attempt is in progress only while the
    /// record is neither `Ready` nor `Closed`; and while the topology is
    /// applied, a call of it is outstanding.
    pub open spec fn well_formed(self) -> bool {
        &&& self.live is Some <==> self.state is Ready
        &&& self.candidate is Some <==> (self.phase is OpeningChannel || self.phase is Applying
            || self.phase is Registering)
        &&& self.phase !is Idle ==> self.state !is Ready && self.state !is Closed
        &&& self.phase is Applying ==> self.applier.awaiting && self.applier.failure is None
            && self.applier.well_formed(self.plans())
    }

    /// Whether a retry loop exists after an attempt has succeeded: the loop
    /// that made the attempt ends with it; another one goes on until it
    /// wakes.
    pub open spec fn retry_after_success(self) -> bool {
        if self.from_retry {
            false
        } else {
            self.retry_pending
        }
    }

    /// The event does not fit: nothing changes.
    pub open spec fn unexpected(self) -> (ConnectionView<C>, AdvanceView) {
        (self, AdvanceView { step: ConnectStepView::Unexpected, settled: None, changed: false })
    }

    /// The attempt in progress fails for `reason`: the state becomes
    /// `Fail(reason)`, the dialed connection is discarded, and a retry loop
    /// is asked for unless one exists.
    pub open spec fn failed(self, reason: Seq<char>, settled: Option<NoteView>) -> (
        ConnectionView<C>,
        AdvanceView,
    ) {
        (
            ConnectionView {
                state: StateView::Fail(reason),
                candidate: None,
                phase: Phase::Idle,
                retry_pending: true,
                ..self
            },
            AdvanceView {
                step: ConnectStepView::Done {
                    success: false,
                    start_retry: !self.from_retry && !self.retry_pending,
                },
                settled,
                changed: notifies(self.state, StateView::Fail(reason)),
            },
        )
    }

    /// An attempt is due. A record that is `Ready` or `Closed` needs none,
    /// which counts as success; any other starts dialing.
    pub open spec fn started(self, by_retry: bool) -> (ConnectionView<C>, AdvanceView) {
        if self.state is Ready || self.state is Closed {
            (
                ConnectionView {
                    retry_pending: if by_retry {
                        false
                    } else {
                        self.retry_pending
                    },
                    ..self
                },
                AdvanceView {
                    step: ConnectStepView::Done { success: true, start_retry: false },
                    settled: None,
                    changed: false,
                },
            )
        } else {
            (
                ConnectionView { phase: Phase::Dialing, from_retry: by_retry, ..self },
                AdvanceView { step: ConnectStepView::Dial, settled: None, changed: false },
            )
        }
    }

    /// The dialing ended. With a connection, the topology comes next where
    /// there is one, else the error handler.
    pub open spec fn dialed(self, result: Result<C, Seq<char>>) -> (ConnectionView<C>, AdvanceView) {
        match result {
            Ok(connection) => if self.topology.len() > 0 {
                (
                    ConnectionView {
                        candidate: Some(connection),
                        phase: Phase::OpeningChannel,
                        ..self
                    },
                    AdvanceView { step: ConnectStepView::OpenChannel, settled: None, changed: false },
                )
            } else {
                (
                    ConnectionView { candidate: Some(connection), phase: Phase::Registering, ..self },
                    AdvanceView {
                        step: ConnectStepView::RegisterHandler,
                        settled: None,
                        changed: false,
                    },
                )
            },
            Err(reason) => self.failed(reason, None),
        }
    }

    /// The applier, in state `applier`, has handed out `step`: a call is
    /// passed on, the end of the topology leads to the error handler, and a
    /// failed item fails the attempt.
    pub open spec fn routed(self, applier: ApplierView, step: StepView, settled: Option<NoteView>) -> (
        ConnectionView<C>,
        AdvanceView,
    ) {
        let next = ConnectionView { applier, ..self };
        match step {
            StepView::Run { item, command } => (
                ConnectionView { phase: Phase::Applying, ..next },
                AdvanceView { step: ConnectStepView::Run(command), settled, changed: false },
            ),
            StepView::Finished => (
                ConnectionView { phase: Phase::Registering, ..next },
                AdvanceView { step: ConnectStepView::RegisterHandler, settled, changed: false },
            ),
            StepView::Failed { item, reason } => next.failed(reason, settled),
        }
    }

    /// The opening of the channel ended. With a channel, the topology is
    /// applied from its start.
    pub open spec fn channel_opened(self, result: Result<(), Seq<char>>) -> (
        ConnectionView<C>,
        AdvanceView,
    ) {
        match result {
            Ok(_) => self.routed(
                ApplierView::start().handed_out(self.plans()),
                ApplierView::start().current(self.plans()),
                None,
            ),
            Err(reason) => self.failed(reason, None),
        }
    }

    /// The item whose application ended when the applier went from
    /// `before` to `after` by a report.
    pub open spec fn settled_by(before: ApplierView, after: ApplierView) -> Option<NoteView> {
        if after.failure is Some {
            Some(NoteView::Failed(before.item))
        } else if after.item > before.item {
            Some(NoteView::Applied(before.item))
        } else {
            None
        }
    }

    /// The outstanding call of the topology ended.
    pub open spec fn command_done(self, outcome: Result<(), Seq<char>>) -> (
        ConnectionView<C>,
        AdvanceView,
    ) {
        let reported = self.applier.reported(self.plans(), outcome);
        self.routed(
            reported.handed_out(self.plans()),
            reported.current(self.plans()),
            Self::settled_by(self.applier, reported),
        )
    }

    /// The error handler is registered: the dialed connection becomes the
    /// live one and the record `Ready`.
    pub open spec fn handler_registered(self) -> (ConnectionView<C>, AdvanceView) {
        (
            ConnectionView {
                state: StateView::Ready,
                live: self.candidate,
                candidate: None,
                phase: Phase::Idle,
                retry_pending: self.retry_after_success(),
                ..self
            },
            AdvanceView {
                step: ConnectStepView::Done { success: true, start_retry: false },
                settled: None,
                changed: notifies(self.state, StateView::Ready),
            },
        )
    }

    /// The record after `event`, and the answer to it. An event counts
    /// only in the phase that waits for it.
    pub open spec fn advanced(self, event: EventView<C>) -> (ConnectionView<C>, AdvanceView) {
        match event {
            EventView::Start => if self.phase is Idle {
                self.started(false)
            } else {
                self.unexpected()
            },
            EventView::RetryWake => if self.phase is Idle {
                self.started(true)
            } else {
                self.unexpected()
            },
            EventView::Dialed(result) => if self.phase is Dialing {
                self.dialed(result)
            } else {
                self.unexpected()
            },
            EventView::ChannelOpened(result) => if self.phase is OpeningChannel {
                self.channel_opened(result)
            } else {
                self.unexpected()
            },
            EventView::CommandDone(outcome) => if self.phase is Applying {
                self.command_done(outcome)
            } else {
                self.unexpected()
            },
            EventView::HandlerRegistered => if self.phase is Registering {
                self.handler_registered()
            } else {
                self.unexpected()
            },
        }
    }

    /// The record, and the answer that it gave last, after the channel was
    /// opened and `count` calls of the topology succeeded one after the
    /// other.
    pub open spec fn topology_run(self, count: nat) -> (ConnectionView<C>, AdvanceView)
        decreases count,
    {
        if count == 0 {
            self.advanced(EventView::ChannelOpened(Ok(())))
        } else {
            self.topology_run((count - 1) as nat).0.advanced(EventView::CommandDone(Ok(())))
        }
    }

    /// The record after a close request, and the answer to it: the
    /// connection that was live, if there was one, and whether the state
    /// changed. Closing a closed record changes nothing.
    pub open spec fn closed(self) -> (ConnectionView<C>, Option<C>, bool) {
        if self.state is Closed {
            (self, None, false)
        } else {
            (
                ConnectionView {
                    state: StateView::Closed,
                    live: None,
                    candidate: None,
                    phase: Phase::Idle,
                    ..self
                },
                self.live,
                true,
            )
        }
    }

    /// The record after the transport reported an error, and the answer to
    /// it. A closed record ignores the report. Any other becomes
    /// `Fail(reason)` and gives up its live connection; it asks for an
    /// attempt at once unless one is in progress.
    pub open spec fn transport_failed(self, reason: Seq<char>) -> (ConnectionView<C>, Failure) {
        if self.state is Closed {
            (self, Failure { reconnect: false, changed: false })
        } else {
            (
                ConnectionView { state: StateView::Fail(reason), live: None, ..self },
                Failure {
                    reconnect: self.phase is Idle,
                    changed: notifies(self.state, StateView::Fail(reason)),
                },
            )
        }
    }
}

impl<C> View for Connection<C> {
    type V = ConnectionView<C>;

    closed spec fn view(&self) -> ConnectionView<C> {
        ConnectionView {
            options: self.options@,
            topology: self.topology@,
            state: self.store@,
            live: self.live,
            candidate: self.candidate,
            phase: self.phase,
            applier: self.applier@,
            from_retry: self.from_retry,
            retry_pending: self.retry_pending,
        }
    }
}

impl<C> Connection<C> {
    /// What holds of every record that this library hands out; see
    /// [`ConnectionView::well_formed`].
    pub open spec fn well_formed(&self) -> bool {
        self@.well_formed()
    }

    /// A record with these options and this topology that has not tried to
    /// connect yet.
    pub fn new(options: ConnectionOptions, topology: Vec<TopologyItem>) -> (connection: Self)
        ensures
            connection@ == ConnectionView::<C>::initial(options@, topology@),
            connection.well_formed(),
    {
        Connection {
            options,
            topology,
            store: StateStore::new(),
            live: None,
            candidate: None,
            phase: Phase::Idle,
            applier: TopologyApplier::new(),
            from_retry: false,
            retry_pending: false,
        }
    }

    /// Fails the attempt in progress.
    fn fail(&mut self, reason: String, settled: Option<ItemNote>) -> (answer: Advance)
        ensures
            (final(self)@, answer@) == old(self)@.failed(reason@, note_view(settled)),
    {
        let start_retry = !self.from_retry && !self.retry_pending;
        self.candidate = None;
        self.phase = Phase::Idle;
        self.retry_pending = true;
        let changed = self.store.set(ConnectionState::Fail(reason));
        Advance { step: ConnectStep::Done { success: false, start_retry }, settled, changed }
    }

    /// Passes on what the applier handed out.
    fn route(&mut self, step: ApplyStep, settled: Option<ItemNote>) -> (answer: Advance)
        ensures
            (final(self)@, answer@) == old(self)@.routed(old(self)@.applier, step@, note_view(settled)),
    {
        match step {
            ApplyStep::Run { command, .. } => {
                self.phase = Phase::Applying;
                Advance { step: ConnectStep::Run(command), settled, changed: false }
            },
            ApplyStep::Finished => {
                self.phase = Phase::Registering;
                Advance { step: ConnectStep::RegisterHandler, settled, changed: false }
            },
            ApplyStep::Failed { reason, .. } => self.fail(reason, settled),
        }
    }

    /// Takes an event, changes the record as the event demands, and
    /// answers with the next step.
    pub fn advance(&mut self, event: ConnectEvent<C>) -> (answer: Advance)
        requires
            old(self).well_formed(),
        ensures
            final(self).well_formed(),
            (final(self)@, answer@) == old(self)@.advanced(event@),
    {
        let unexpected = Advance { step: ConnectStep::Unexpected, settled: None, changed: false };
        match event {
            ConnectEvent::Start => {
                if self.phase == Phase::Idle {
                    self.start(false)
                } else {
                    unexpected
                }
            },
            ConnectEvent::RetryWake => {
                if self.phase == Phase::Idle {
                    self.start(true)
                } else {
                    unexpected
                }
            },
            ConnectEvent::Dialed(result) => {
                if self.phase == Phase::Dialing {
                    match result {
                        Ok(connection) => {
                            self.candidate = Some(connection);
                            if self.topology.len() > 0 {
                                self.phase = Phase::OpeningChannel;
                                Advance { step: ConnectStep::OpenChannel, settled: None, changed: false }
                            } else {
                                self.phase = Phase::Registering;
                                Advance {
                                    step: ConnectStep::RegisterHandler,
                                    settled: None,
                                    changed: false,
                                }
                            }
                        },
                        Err(reason) => self.fail(reason, None),
                    }
                } else {
                    unexpected
                }
            },
            ConnectEvent::ChannelOpened(result) => {
                if self.phase == Phase::OpeningChannel {
                    match result {
                        Ok(_) => {
                            self.applier = TopologyApplier::new();
                            let step = self.applier.begin(&self.topology);
                            self.route(step, None)
                        },
                        Err(reason) => self.fail(reason, None),
                    }
                } else {
                    unexpected
                }
            },
            ConnectEvent::CommandDone(outcome) => {
                if self.phase == Phase::Applying {
                    let before: usize = self.applier.applied();
                    let step = self.applier.advance(&self.topology, outcome);
                    let after: usize = self.applier.applied();
                    let settled = match &step {
                        ApplyStep::Failed { item, .. } => Some(ItemNote::Failed(*item)),
                        _ => if after > before {
                            Some(ItemNote::Applied(before))
                        } else {
                            None
                        },
                    };
                    proof {
                        lemma_plans_are_not_empty(self.topology@);
                    }
                    self.route(step, settled)
                } else {
                    unexpected
                }
            },
            ConnectEvent::HandlerRegistered => {
                if self.phase == Phase::Registering {
                    let candidate = self.candidate.take();
                    self.live = candidate;
                    self.phase = Phase::Idle;
                    if self.from_retry {
                        self.retry_pending = false;
                    }
                    let changed = self.store.set(ConnectionState::Ready);
                    Advance {
                        step: ConnectStep::Done { success: true, start_retry: false },
                        settled: None,
                        changed,
                    }
                } else {
                    unexpected
                }
            },
        }
    }

    /// The live connection: the one on which the caller sends the
    /// transport-level close before it closes the record. There is one
    /// exactly while the record is `Ready`.
    pub fn live(&self) -> (live: Option<&C>)
        requires
            self.well_formed(),
        ensures
            match live {
                Some(handle) => self@.live == Some(*handle),
                None => self@.live is None,
            },
            live is Some <==> self@.state is Ready,
    {
        self.live.as_ref()
    }

    /// Closes the record: whatever its state, it is `Closed` afterwards, an
    /// attempt in progress is dropped, and the live connection, if there was
    /// one, is given up and handed out. Closing a closed record does
    /// nothing.
    pub fn close(&mut self) -> (answer: Closing<C>)
        requires
            old(self).well_formed(),
        ensures
            final(self).well_formed(),
            (final(self)@, answer.handle, answer.changed) == old(self)@.closed(),
    {
        let state = self.store.state();
        if let ConnectionState::Closed = state {
            return Closing { handle: None, changed: false };
        }
        let handle = self.live.take();
        self.candidate = None;
        self.phase = Phase::Idle;
        let changed = self.store.set(ConnectionState::Closed);
        Closing { handle, changed }
    }

    /// Takes an error that the transport reported on its own, with its
    /// description. A closed record ignores it. Any other becomes
    /// `Fail(reason)` and drops its live connection; the answer says
    /// whether to start a connect attempt at once.
    pub fn transport_failed(&mut self, reason: String) -> (answer: Failure)
        requires
            old(self).well_formed(),
        ensures
            final(self).well_formed(),
            (final(self)@, answer) == old(self)@.transport_failed(reason@),
    {
        let state = self.store.state();
        if let ConnectionState::Closed = state {
            return Failure { reconnect: false, changed: false };
        }
        self.live = None;
        let changed = self.store.set(ConnectionState::Fail(reason));
        Failure { reconnect: self.phase == Phase::Idle, changed }
    }

    /// Admits a request for a channel. A `Ready` record hands out its live
    /// connection, on which the caller opens the channel. Any other refuses,
    /// and hands out nothing on which a transport call could be made: with
    /// `Closed` when it is closed, with `NotReady` when it has not connected
    /// yet or has failed.
    pub fn create_channel(&self) -> (admitted: Result<&C, ConnectionError>)
        requires
            self.well_formed(),
        ensures
            match refusal(self@.state) {
                None => admitted matches Ok(handle) && self@.live == Some(*handle),
                Some(error) => admitted matches Err(e) && e@ == error,
            },
    {
        let state = self.store.state();
        match ConnectionError::for_state(&state) {
            Some(error) => Err(error),
            None => match &self.live {
                Some(handle) => Ok(handle),
                None => Err(ConnectionError::NotReady),
            },
        }
    }

    /// Turns the transport's answer to a request into the answer that the
    /// caller of a handle gets: a failure becomes a transport-level error
    /// with the same description.
    pub fn channel_outcome<T>(outcome: Result<T, String>) -> (answer: Result<T, ConnectionError>)
        ensures
            match outcome {
                Ok(channel) => answer == Ok::<T, ConnectionError>(channel),
                Err(reason) => answer matches Err(e) && e@ == crate::state::ErrorView::Fail(reason@),
            },
    {
        match outcome {
            Ok(channel) => Ok(channel),
            Err(reason) => Err(ConnectionError::Fail(reason)),
        }
    }

    /// The connection that the attempt in progress has dialed: the one to
    /// open the channel on and to register the error handler on.
    pub fn candidate(&self) -> (candidate: Option<&C>)
        ensures
            match candidate {
                Some(handle) => self@.candidate == Some(*handle),
                None => self@.candidate is None,
            },
    {
        self.candidate.as_ref()
    }

    /// The current state.
    pub fn state(&self) -> (state: ConnectionState)
        ensures
            state@ == self@.state,
    {
        self.store.state()
    }

    /// A new observer of the state. It has seen the current state, which
    /// is what its first read shows without waiting; it wakes on every
    /// later change.
    pub fn state_watcher(&self) -> (observer: Receiver<ConnectionState>)
        ensures
            seen(observer) == self@.state,
    {
        self.store.subscribe()
    }

    /// Where the broker is.
    pub fn uri(&self) -> (uri: String)
        ensures
            uri@ == self@.options.uri,
    {
        self.options.uri.clone()
    }

    /// The options that the record was built with.
    pub fn options(&self) -> (options: &ConnectionOptions)
        ensures
            options@ == self@.options,
    {
        &self.options
    }

    /// The topology that is applied on every new connection.
    pub fn topology(&self) -> (topology: &Vec<TopologyItem>)
        ensures
            topology@ == self@.topology,
    {
        &self.topology
    }

    /// Whether a retry loop exists.
    pub fn retry_pending(&self) -> (pending: bool)
        ensures
            pending == self@.retry_pending,
    {
        self.retry_pending
    }

    /// Starts an attempt, where one is needed.
    fn start(&mut self, by_retry: bool) -> (answer: Advance)
        ensures
            (final(self)@, answer@) == old(self)@.started(by_retry),
    {
        let state = self.store.state();
        let settled = match state {
            ConnectionState::Ready => true,
            ConnectionState::Closed => true,
            _ => false,
        };
        if settled {
            if by_retry {
                self.retry_pending = false;
            }
            Advance {
                step: ConnectStep::Done { success: true, start_retry: false },
                settled: None,
                changed: false,
            }
        } else {
            self.phase = Phase::Dialing;
            self.from_retry = by_retry;
            Advance { step: ConnectStep::Dial, settled: None, changed: false }
        }
    }
}

/// Builds the record of a connection step by step.
pub struct ConnectionBuilder {
    options: ConnectionOptions,
    topology: Vec<TopologyItem>,
}

/// Mathematical value of a [`ConnectionBuilder`].
pub struct BuilderView {
    pub options: OptionsView,
    pub topology: Seq<TopologyItem>,
}

impl View for ConnectionBuilder {
    type V = BuilderView;

    closed spec fn view(&self) -> BuilderView {
        BuilderView { options: self.options@, topology: self.topology@ }
    }
}

impl ConnectionBuilder {
    /// A builder for a connection to `uri`: no name, two seconds between
    /// attempts, the locale `en-US`, no client properties, no topology.
    pub fn new(uri: String) -> (builder: Self)
        ensures
            builder@ == (BuilderView {
                options: OptionsView { reconnect: 2000, ..OptionsView::plain(uri@, Seq::empty()) },
                topology: Seq::empty(),
            }),
    {
        let options = ConnectionOptions::new(uri.as_str(), "").with_reconnect(seconds(2));
        proof {
            reveal_strlit("");
            assert(""@ =~= Seq::<char>::empty());
        }
        ConnectionBuilder { options, topology: Vec::new() }
    }

    /// Sets the pause between attempts.
    pub fn with_reconnect(self, interval: Duration) -> (builder: Self)
        ensures
            builder@ == (BuilderView {
                options: OptionsView { reconnect: whole_millis(interval), ..self@.options },
                ..self@
            }),
    {
        ConnectionBuilder { options: self.options.with_reconnect(interval), topology: self.topology }
    }

    /// Sets the client properties.
    pub fn with_props(self, props: FieldTable) -> (builder: Self)
        ensures
            builder@ == (BuilderView {
                options: OptionsView { properties: table_entries(props), ..self@.options },
                ..self@
            }),
    {
        ConnectionBuilder { options: self.options.with_props(props), topology: self.topology }
    }

    /// Sets the locale.
    pub fn with_locale(self, locale: String) -> (builder: Self)
        ensures
            builder@ == (BuilderView {
                options: OptionsView { locale: locale@, ..self@.options },
                ..self@
            }),
    {
        ConnectionBuilder {
            options: self.options.with_locale(locale.as_str()),
            topology: self.topology,
        }
    }

    /// Sets the name of the connection.
    pub fn with_connection_name(self, connection_name: &str) -> (builder: Self)
        ensures
            builder@ == (BuilderView {
                options: OptionsView { name: connection_name@, ..self@.options },
                ..self@
            }),
    {
        let mut options = self.options;
        options.name = String::from_str(connection_name);
        ConnectionBuilder { options, topology: self.topology }
    }

    /// Sets the topology.
    pub fn with_topology(self, topology: Vec<TopologyItem>) -> (builder: Self)
        ensures
            builder@ == (BuilderView { topology: topology@, ..self@ }),
    {
        ConnectionBuilder { options: self.options, topology }
    }

    /// Builds the record. It has not tried to connect yet: the first
    /// attempt starts with [`ConnectEvent::Start`].
    pub fn build<C>(self) -> (connection: Connection<C>)
        ensures
            connection@ == ConnectionView::<C>::initial(self@.options, self@.topology),
            connection.well_formed(),
    {
        Connection::new(self.options, self.topology)
    }
}

/// Every event keeps a record well formed. In particular a record holds a
/// live connection exactly while it is `Ready`.
pub proof fn lemma_advanced_is_well_formed<C>(record: ConnectionView<C>, event: EventView<C>)
    requires
        record.well_formed(),
    ensures
        record.advanced(event).0.well_formed(),
{
    lemma_plans_are_not_empty(record.topology);
}

/// A close request and a transport error keep a record well formed.
pub proof fn lemma_closed_and_failed_are_well_formed<C>(record: ConnectionView<C>, reason: Seq<char>)
    requires
        record.well_formed(),
    ensures
        record.closed().0.well_formed(),
        record.transport_failed(reason).0.well_formed(),
{
}

/// Closing is idempotent: a close request leaves the record `Closed`, and
/// a second one right after it changes nothing, hands out no connection and
/// notifies nobody.
pub proof fn lemma_close_is_idempotent<C>(record: ConnectionView<C>)
    ensures
        record.closed().0.state is Closed,
        record.closed().0.closed() == (record.closed().0, None::<C>, false),
{
}

/// `Closed` is terminal: a closed record stays closed whatever it is told,
/// starts no attempt, and asks for no retry loop and no reconnect.
pub proof fn lemma_closed_is_terminal<C>(record: ConnectionView<C>, event: EventView<C>, reason: Seq<char>)
    requires
        record.well_formed(),
        record.state is Closed,
    ensures
        record.advanced(event).0.state is Closed,
        record.advanced(event).1.step == (ConnectStepView::Done { success: true, start_retry: false })
            || record.advanced(event).1.step is Unexpected,
        !record.advanced(event).1.changed,
        record.transport_failed(reason) == (record, Failure { reconnect: false, changed: false }),
{
}

/// On every new connection the topology is applied once, in order: after
/// the channel is opened, and while every call succeeds, the record answers
/// with the calls of the topology one after the other, each once, and after
/// the last with the registration of the error handler. The state and the
/// dialed connection stay as they are meanwhile.
pub proof fn lemma_topology_is_applied_in_order<C>(record: ConnectionView<C>, count: nat)
    requires
        record.well_formed(),
        record.phase is OpeningChannel,
        count <= all_calls(record.plans()).len(),
    ensures
        ({
            let (after, answer) = record.topology_run(count);
            &&& after.well_formed()
            &&& after.state == record.state
            &&& after.candidate == record.candidate
            &&& !answer.changed
            &&& count < all_calls(record.plans()).len() ==> after.phase is Applying && (all_calls(
                record.plans(),
            )[count as int] matches StepView::Run { item, command } && answer.step
                == ConnectStepView::Run(command))
            &&& count == all_calls(record.plans()).len() ==> after.phase is Registering && answer.step
                is RegisterHandler
        }),
{
    lemma_topology_run(record, count);
}

/// What [`lemma_topology_is_applied_in_order`] states, together with what
/// its induction needs: the applier of the record is the fresh applier
/// after `count` successes.
proof fn lemma_topology_run<C>(record: ConnectionView<C>, count: nat)
    requires
        record.well_formed(),
        record.phase is OpeningChannel,
        count <= all_calls(record.plans()).len(),
    ensures
        ({
            let (after, answer) = record.topology_run(count);
            let applier = ApplierView::start().handed_out(record.plans()).driven(
                record.plans(),
                successes(count),
            );
            &&& after == (ConnectionView {
                applier,
                phase: (if count < all_calls(record.plans()).len() {
                    Phase::Applying
                } else {
                    Phase::Registering
                }),
                ..record
            })
            &&& after.well_formed()
            &&& !answer.changed
            &&& count < all_calls(record.plans()).len() ==> (all_calls(record.plans())[count as int] matches StepView::Run {
                item,
                command,
            } && answer.step == ConnectStepView::Run(command))
            &&& count == all_calls(record.plans()).len() ==> answer.step is RegisterHandler
        }),
    decreases count,
{
    let plans = record.plans();
    lemma_plans_are_not_empty(record.topology);
    lemma_calls_come_in_order(plans, count);
    if count > 0 {
        let before = (count - 1) as nat;
        lemma_topology_run(record, before);
        lemma_calls_come_in_order(plans, before);
        assert(successes(count).drop_last() =~= successes(before));
    }
}

/// Whether a record may go from state `from` to state `to` in one step:
/// from `Unknown` or a failure to `Ready` or to a failure, from `Ready` to a
/// failure, and from every state but `Closed` to `Closed`. Staying in a
/// state is no step.
pub open spec fn legal(from: StateView, to: StateView) -> bool {
    ||| from == to
    ||| (from is Unknown || from is Fail) && (to is Ready || to is Fail)
    ||| from is Ready && to is Fail
    ||| from !is Closed && to is Closed
}

/// Whatever a record is told, its state changes along a legal step only.
pub proof fn lemma_transitions_are_legal<C>(record: ConnectionView<C>, event: EventView<C>, reason: Seq<char>)
    requires
        record.well_formed(),
    ensures
        legal(record.state, record.advanced(event).0.state),
        legal(record.state, record.closed().0.state),
        legal(record.state, record.transport_failed(reason).0.state),
{
}

/// The end of an attempt tells the state: an attempt ends in success
/// exactly when the record is `Ready` or `Closed` afterwards; else the
/// record is in a failure state and a retry loop exists. Either way no
/// attempt is in progress any more.
pub proof fn lemma_done_tells_the_state<C>(record: ConnectionView<C>, event: EventView<C>)
    requires
        record.well_formed(),
        record.advanced(event).1.step is Done,
    ensures
        record.advanced(event).0.phase is Idle,
        record.advanced(event).1.step matches ConnectStepView::Done { success, .. } && (success <==> (
            record.advanced(event).0.state is Ready || record.advanced(event).0.state is Closed)) && (
            !success ==> record.advanced(event).0.state is Fail && record.advanced(event).0.retry_pending),
{
    lemma_plans_are_not_empty(record.topology);
}

/// There is one retry loop at most: an answer asks for one only when none
/// exists, and one exists from then on.
pub proof fn lemma_one_retry_loop<C>(record: ConnectionView<C>, event: EventView<C>)
    requires
        record.advanced(event).1.step matches ConnectStepView::Done { start_retry, .. } && start_retry,
    ensures
        !record.retry_pending,
        record.advanced(event).0.retry_pending,
{
}

/// The attempt has failed for `reason` and left nothing behind: the record
/// is in state `Fail(reason)`, holds no connection, neither live nor dialed,
/// has no attempt in progress, and the answer says that the attempt failed.
pub open spec fn discarded<C>(after: (ConnectionView<C>, AdvanceView), reason: Seq<char>) -> bool {
    &&& after.0.state == StateView::Fail(reason)
    &&& after.0.live is None
    &&& after.0.candidate is None
    &&& after.0.phase is Idle
    &&& after.1.step matches ConnectStepView::Done { success, .. } && !success
}

/// A failed attempt is never promoted: whether the dialing, the opening of
/// the channel or a call of the topology fails, the attempt is discarded
/// with the reason reported. Where a call of the topology failed, the
/// answer names the item that it belongs to.
pub proof fn lemma_failed_attempt_is_discarded<C>(record: ConnectionView<C>, reason: Seq<char>)
    requires
        record.well_formed(),
    ensures
        record.phase is Dialing ==> discarded(record.advanced(EventView::Dialed(Err(reason))), reason),
        record.phase is OpeningChannel ==> discarded(
            record.advanced(EventView::ChannelOpened(Err(reason))),
            reason,
        ),
        record.phase is Applying ==> discarded(
            record.advanced(EventView::CommandDone(Err(reason))),
            reason,
        ) && record.advanced(EventView::CommandDone(Err(reason))).1.settled == Some(
            NoteView::Failed(record.applier.item),
        ),
{
    if record.phase is Applying {
        let plans = record.plans();
        let reported = record.applier.reported(plans, Err(reason));
        assert(reported.failure == Some((record.applier.item, reason)));
        assert(reported.handed_out(plans) == reported);
    }
}

/// A record that is not `Ready` serves no channel: while its state is a
/// failure, a request for a channel is refused with `NotReady`.
pub proof fn lemma_failed_record_is_not_ready(reason: Seq<char>)
    ensures
        refusal(StateView::Fail(reason)) == Some(crate::state::ErrorView::NotReady),
{
}

} // verus!
