//! The lifecycle state of a supervised connection.

use vstd::prelude::*;
use vstd::std_specs::cmp::PartialEqSpecImpl;
use vstd::string::StringExecFns;

verus! {

/// Lifecycle state of one supervised connection.
#[derive(Debug)]
pub enum ConnectionState {
    /// Starting state: no connect attempt has finished yet.
    Unknown,
    /// Connected to the broker and usable.
    Ready,
    /// The last attempt or the live connection failed; holds the description
    /// of the broker or transport error.
    Fail(String),
    /// Closed on request; terminal.
    Closed,
}

/// Mathematical value of a [`ConnectionState`]: the tag, and for a failure
/// the text of its reason.
pub enum StateView {
    Unknown,
    Ready,
    Fail(Seq<char>),
    Closed,
}

impl View for ConnectionState {
    type V = StateView;

    open spec fn view(&self) -> StateView {
        match self {
            ConnectionState::Unknown => StateView::Unknown,
            ConnectionState::Ready => StateView::Ready,
            ConnectionState::Fail(reason) => StateView::Fail(reason@),
            ConnectionState::Closed => StateView::Closed,
        }
    }
}

impl PartialEq for ConnectionState {
    /// Two states are equal when they carry the same tag and, for failures,
    /// the same reason text.
    fn eq(&self, other: &ConnectionState) -> (same: bool) {
        match (self, other) {
            (ConnectionState::Unknown, ConnectionState::Unknown) => true,
            (ConnectionState::Ready, ConnectionState::Ready) => true,
            (ConnectionState::Closed, ConnectionState::Closed) => true,
            (ConnectionState::Fail(mine), ConnectionState::Fail(theirs)) => *mine == *theirs,
            _ => false,
        }
    }
}

impl Clone for ConnectionState {
    fn clone(&self) -> (copy: ConnectionState)
        ensures
            copy@ == self@,
    {
        match self {
            ConnectionState::Unknown => ConnectionState::Unknown,
            ConnectionState::Ready => ConnectionState::Ready,
            ConnectionState::Fail(reason) => ConnectionState::Fail(reason.clone()),
            ConnectionState::Closed => ConnectionState::Closed,
        }
    }
}

impl PartialEqSpecImpl for ConnectionState {
    open spec fn obeys_eq_spec() -> bool {
        true
    }

    open spec fn eq_spec(&self, other: &ConnectionState) -> bool {
        self@ == other@
    }
}

/// Severity of the log line that reports an event.
#[derive(Debug, Clone, Copy, PartialEq, Eq, Structural)]
pub enum LogLevel {
    Error,
    Warn,
    Info,
}

/// The text that [`ConnectionState::to_text`] renders for a state.
pub open spec fn state_text(state: StateView) -> Seq<char> {
    match state {
        StateView::Closed => "CLOSED"@,
        StateView::Fail(reason) => "ERROR: "@ + reason,
        StateView::Ready => "READY"@,
        StateView::Unknown => "UNKNOWN"@,
    }
}

/// The severity at which entering a state is logged; `None` where nothing
/// is logged.
pub open spec fn state_log_level(state: StateView) -> Option<LogLevel> {
    match state {
        StateView::Fail(_) => Some(LogLevel::Error),
        StateView::Ready => Some(LogLevel::Warn),
        StateView::Closed => Some(LogLevel::Warn),
        StateView::Unknown => None,
    }
}

impl ConnectionState {
    /// Renders the state for display.
    pub fn to_text(&self) -> (text: String)
        ensures
            text@ == state_text(self@),
    {
        match self {
            ConnectionState::Closed => String::from_str("CLOSED"),
            ConnectionState::Fail(reason) => {
                String::from_str("ERROR: ").concat(reason.as_str())
            },
            ConnectionState::Ready => String::from_str("READY"),
            ConnectionState::Unknown => String::from_str("UNKNOWN"),
        }
    }

    /// Classifies the log line written when this state is entered: failures
    /// at error level, `Ready` and `Closed` at warn level, `Unknown` not at
    /// all.
    pub fn log_level(&self) -> (level: Option<LogLevel>)
        ensures
            level == state_log_level(self@),
    {
        match self {
            ConnectionState::Fail(_) => Some(LogLevel::Error),
            ConnectionState::Ready => Some(LogLevel::Warn),
            ConnectionState::Closed => Some(LogLevel::Warn),
            ConnectionState::Unknown => None,
        }
    }
}

/// Why an operation on a connection handle was refused.
#[derive(Debug)]
pub enum ConnectionError {
    /// The transport failed the operation; holds the description of its
    /// error.
    Fail(String),
    /// The connection was closed on request.
    Closed,
    /// The connection is not usable now: it has not connected yet, or it
    /// lost the broker and waits to reconnect.
    NotReady,
}

/// Mathematical value of a [`ConnectionError`].
pub enum ErrorView {
    Fail(Seq<char>),
    Closed,
    NotReady,
}

impl View for ConnectionError {
    type V = ErrorView;

    open spec fn view(&self) -> ErrorView {
        match self {
            ConnectionError::Fail(reason) => ErrorView::Fail(reason@),
            ConnectionError::Closed => ErrorView::Closed,
            ConnectionError::NotReady => ErrorView::NotReady,
        }
    }
}

/// The text that [`ConnectionError::to_text`] renders for an error.
pub open spec fn error_text(error: ErrorView) -> Seq<char> {
    match error {
        ErrorView::Fail(reason) => "AMQP error: "@ + reason,
        ErrorView::Closed => "bunny connection closed"@,
        ErrorView::NotReady => "bunny connection not ready"@,
    }
}

/// The error that a handle answers with while its connection is in `state`;
/// `None` for `Ready`, the one state in which it serves.
pub open spec fn refusal(state: StateView) -> Option<ErrorView> {
    match state {
        StateView::Ready => None,
        StateView::Closed => Some(ErrorView::Closed),
        StateView::Fail(_) => Some(ErrorView::NotReady),
        StateView::Unknown => Some(ErrorView::NotReady),
    }
}

impl ConnectionError {
    /// Renders the error for display.
    pub fn to_text(&self) -> (text: String)
        ensures
            text@ == error_text(self@),
    {
        match self {
            ConnectionError::Fail(reason) => {
                String::from_str("AMQP error: ").concat(reason.as_str())
            },
            ConnectionError::Closed => String::from_str("bunny connection closed"),
            ConnectionError::NotReady => String::from_str("bunny connection not ready"),
        }
    }

    /// The error with which a connection in `state` refuses to serve, if it
    /// does refuse.
    pub fn for_state(state: &ConnectionState) -> (error: Option<ConnectionError>)
        ensures
            match refusal(state@) {
                Some(expected) => error matches Some(e) && e@ == expected,
                None => error is None,
            },
    {
        match state {
            ConnectionState::Ready => None,
            ConnectionState::Closed => Some(ConnectionError::Closed),
            ConnectionState::Fail(_) => Some(ConnectionError::NotReady),
            ConnectionState::Unknown => Some(ConnectionError::NotReady),
        }
    }
}

impl Clone for ConnectionError {
    fn clone(&self) -> (copy: ConnectionError)
        ensures
            copy@ == self@,
    {
        match self {
            ConnectionError::Fail(reason) => ConnectionError::Fail(reason.clone()),
            ConnectionError::Closed => ConnectionError::Closed,
            ConnectionError::NotReady => ConnectionError::NotReady,
        }
    }
}

impl PartialEq for ConnectionError {
    /// Two errors are equal when they carry the same tag and, for transport
    /// failures, the same description.
    fn eq(&self, other: &ConnectionError) -> (same: bool) {
        match (self, other) {
            (ConnectionError::Fail(mine), ConnectionError::Fail(theirs)) => *mine == *theirs,
            (ConnectionError::Closed, ConnectionError::Closed) => true,
            (ConnectionError::NotReady, ConnectionError::NotReady) => true,
            _ => false,
        }
    }
}

impl PartialEqSpecImpl for ConnectionError {
    open spec fn obeys_eq_spec() -> bool {
        true
    }

    open spec fn eq_spec(&self, other: &ConnectionError) -> bool {
        self@ == other@
    }
}

} // verus!
