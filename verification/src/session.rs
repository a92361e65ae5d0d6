//! One connection's echo session: what the handler does next, given what the
//! last read or write came to.

use vstd::prelude::*;
use crate::report::{diagnostic, report_kind, ErrorKind};

verus! {

/// The most bytes one read may deliver, and so the most one write echoes.
pub const BUFFER_SIZE: usize = 512;

/// Where a session stands. `Closed` and `Errored` are final.
#[derive(Clone, Copy, Debug, PartialEq, Eq, Structural)]
pub enum SessionState {
    /// Accepted, and neither closed by the peer nor failed.
    Active,
    /// The peer shut the connection down in good order.
    Closed,
    /// A read or a write failed.
    Errored,
}

/// What the last read or write on the connection came to.
#[derive(Debug, PartialEq, Eq)]
pub enum Event {
    /// A read delivered these bytes; none at all means the peer has shut down.
    Received(Vec<u8>),
    /// A read failed, with this detail.
    ReadFailed(String),
    /// The bytes last handed out for writing were written in full.
    Written,
    /// A write failed, with this detail.
    WriteFailed(String),
}

/// An [`Event`] as plain values.
pub enum EventView {
    Received(Seq<u8>),
    ReadFailed(Seq<char>),
    Written,
    WriteFailed(Seq<char>),
}

impl View for Event {
    type V = EventView;

    open spec fn view(&self) -> EventView {
        match self {
            Event::Received(data) => EventView::Received(data@),
            Event::ReadFailed(detail) => EventView::ReadFailed(detail@),
            Event::Written => EventView::Written,
            Event::WriteFailed(detail) => EventView::WriteFailed(detail@),
        }
    }
}

/// What the handler does next.
#[derive(Debug, PartialEq, Eq)]
pub enum Action {
    /// Read from the connection, at most this many bytes.
    Read(usize),
    /// Write all of these bytes to the connection, in this order.
    Write(Vec<u8>),
    /// Release the connection; the session ended in good order.
    Release,
    /// Emit this diagnostic and release the connection; the session failed.
    Abort(String),
}

/// An [`Action`] as plain values.
pub enum ActionView {
    Read(nat),
    Write(Seq<u8>),
    Release,
    Abort(Seq<char>),
}

impl View for Action {
    type V = ActionView;

    open spec fn view(&self) -> ActionView {
        match self {
            Action::Read(limit) => ActionView::Read(*limit as nat),
            Action::Write(data) => ActionView::Write(data@),
            Action::Release => ActionView::Release,
            Action::Abort(line) => ActionView::Abort(line@),
        }
    }
}

/// The session's rule: from a state and an event to the next state and the
/// action to take.
///
/// An active session echoes what a read delivered, reads again once the echo
/// is written, closes on an empty read and fails on any failure. A session
/// that has ended stays as it is and asks for nothing but release.
pub open spec fn step_spec(state: SessionState, event: EventView) -> (SessionState, ActionView) {
    match state {
        SessionState::Active => match event {
            EventView::Received(data) => if data.len() == 0 {
                (SessionState::Closed, ActionView::Release)
            } else {
                (SessionState::Active, ActionView::Write(data))
            },
            EventView::ReadFailed(detail) => (
                SessionState::Errored,
                ActionView::Abort(diagnostic(ErrorKind::Read.context_text(), detail)),
            ),
            EventView::Written => (SessionState::Active, ActionView::Read(BUFFER_SIZE as nat)),
            EventView::WriteFailed(detail) => (
                SessionState::Errored,
                ActionView::Abort(diagnostic(ErrorKind::Write.context_text(), detail)),
            ),
        },
        _ => (state, ActionView::Release),
    }
}

/// What a handler does before any event: an active session reads, up to the
/// buffer's size; one that has ended is released.
pub open spec fn first_action(state: SessionState) -> ActionView {
    match state {
        SessionState::Active => ActionView::Read(BUFFER_SIZE as nat),
        _ => ActionView::Release,
    }
}

/// One accepted connection: the peer's address and the session's state. Its
/// handler owns it alone.
#[derive(Debug)]
pub struct Connection {
    remote: String,
    state: SessionState,
}

/// A [`Connection`] as plain values.
pub struct ConnectionView {
    pub remote: Seq<char>,
    pub state: SessionState,
}

impl View for Connection {
    type V = ConnectionView;

    closed spec fn view(&self) -> ConnectionView {
        ConnectionView { remote: self.remote@, state: self.state }
    }
}

impl Connection {
    /// The connection just accepted from `remote`: its session is active.
    pub fn new(remote: String) -> (connection: Connection)
        ensures
            connection@.remote == remote@,
            connection@.state == SessionState::Active,
    {
        Connection { remote, state: SessionState::Active }
    }

    /// The peer's address.
    pub fn remote(&self) -> (remote: &str)
        ensures
            remote@ == self@.remote,
    {
        self.remote.as_str()
    }

    /// Where the session stands.
    pub fn state(&self) -> (state: SessionState)
        ensures
            state == self@.state,
    {
        self.state
    }

    /// What the handler does first: read, where the session is active, as
    /// it is when just accepted; release, where it has ended.
    pub fn start(&self) -> (action: Action)
        ensures
            action@ == first_action(self@.state),
    {
        match self.state {
            SessionState::Active => Action::Read(BUFFER_SIZE),
            _ => Action::Release,
        }
    }

    /// Takes what the last read or write came to, moves the session on and
    /// says what to do next, as [`step_spec`] rules.
    pub fn step(&mut self, event: Event) -> (action: Action)
        ensures
            final(self)@.remote == old(self)@.remote,
            (final(self)@.state, action@) == step_spec(old(self)@.state, event@),
    {
        match self.state {
            SessionState::Active => match event {
                Event::Received(data) => {
                    if data.len() == 0 {
                        self.state = SessionState::Closed;
                        Action::Release
                    } else {
                        Action::Write(data)
                    }
                },
                Event::ReadFailed(detail) => {
                    self.state = SessionState::Errored;
                    Action::Abort(report_kind(ErrorKind::Read, detail.as_str()))
                },
                Event::Written => Action::Read(BUFFER_SIZE),
                Event::WriteFailed(detail) => {
                    self.state = SessionState::Errored;
                    Action::Abort(report_kind(ErrorKind::Write, detail.as_str()))
                },
            },
            _ => Action::Release,
        }
    }
}

} // verus!
