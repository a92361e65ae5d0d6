//! The listener: what comes of binding, and what the accept loop does with
//! each attempt to accept a connection.

use vstd::prelude::*;
use vstd::string::StringExecFns;
use crate::report::{diagnostic, report, report_kind, ErrorKind};
use crate::session::{Connection, ConnectionView, SessionState};

verus! {

/// The context of a failure to bind to `address`: the words of the kind, a
/// space, and the address.
pub open spec fn bind_context(address: Seq<char>) -> Seq<char> {
    ErrorKind::Bind.context_text() + " "@ + address
}

/// The bound listening socket's side of the server. It lives as long as the
/// process and holds nothing of any connection.
#[derive(Debug)]
pub struct Listener {
    address: String,
}

/// The failure to bind: fatal to the process.
#[derive(Debug)]
pub struct BindError {
    address: String,
    diagnostic: String,
}

/// A [`BindError`] as plain values.
pub struct BindErrorView {
    pub address: Seq<char>,
    pub diagnostic: Seq<char>,
}

impl View for BindError {
    type V = BindErrorView;

    closed spec fn view(&self) -> BindErrorView {
        BindErrorView { address: self.address@, diagnostic: self.diagnostic@ }
    }
}

impl BindError {
    /// The address that could not be bound.
    pub fn address(&self) -> (address: &str)
        ensures
            address@ == self@.address,
    {
        self.address.as_str()
    }

    /// The line to abort the process with. It names the address.
    pub fn diagnostic(&self) -> (line: &str)
        ensures
            line@ == self@.diagnostic,
    {
        self.diagnostic.as_str()
    }
}

/// What one attempt to accept a connection came to.
#[derive(Debug, PartialEq, Eq)]
pub enum Incoming {
    /// A peer connected, from this address.
    Connected(String),
    /// The attempt failed, with this detail.
    Failed(String),
}

/// An [`Incoming`] as plain values.
pub enum IncomingView {
    Connected(Seq<char>),
    Failed(Seq<char>),
}

impl View for Incoming {
    type V = IncomingView;

    open spec fn view(&self) -> IncomingView {
        match self {
            Incoming::Connected(remote) => IncomingView::Connected(remote@),
            Incoming::Failed(detail) => IncomingView::Failed(detail@),
        }
    }
}

/// What the accept loop does with one attempt before it accepts again.
#[derive(Debug)]
pub enum Dispatch {
    /// Hand this connection to a handler of its own, and do not wait for it.
    Handle(Connection),
    /// Emit this diagnostic.
    Report(String),
}

/// A [`Dispatch`] as plain values.
pub enum DispatchView {
    Handle(ConnectionView),
    Report(Seq<char>),
}

impl View for Dispatch {
    type V = DispatchView;

    open spec fn view(&self) -> DispatchView {
        match self {
            Dispatch::Handle(connection) => DispatchView::Handle(connection@),
            Dispatch::Report(line) => DispatchView::Report(line@),
        }
    }
}

/// The accept loop's rule: a peer that connected gets a connection with an
/// active session; a failed attempt gets a diagnostic. Either way the loop
/// goes on.
pub open spec fn dispatch_spec(incoming: IncomingView) -> DispatchView {
    match incoming {
        IncomingView::Connected(remote) => DispatchView::Handle(
            ConnectionView { remote, state: SessionState::Active },
        ),
        IncomingView::Failed(detail) => DispatchView::Report(
            diagnostic(ErrorKind::Accept.context_text(), detail),
        ),
    }
}

impl View for Listener {
    type V = Seq<char>;

    closed spec fn view(&self) -> Seq<char> {
        self.address@
    }
}

impl Listener {
    /// Takes what came of binding the socket to `address`: `Ok` where it is
    /// bound, else the detail of the failure. Gives the listener, or the error
    /// whose diagnostic names the address.
    pub fn bind(address: &str, outcome: Result<(), String>) -> (bound: Result<Listener, BindError>)
        ensures
            outcome is Ok ==> bound is Ok && bound->Ok_0@ == address@,
            outcome matches Err(detail) ==> bound is Err && bound->Err_0@ == (BindErrorView {
                address: address@,
                diagnostic: diagnostic(bind_context(address@), detail@),
            }),
    {
        match outcome {
            Ok(()) => Ok(Listener { address: String::from_str(address) }),
            Err(detail) => {
                let mut context = String::from_str(ErrorKind::Bind.context());
                context.append(" ");
                context.append(address);
                Err(
                    BindError {
                        address: String::from_str(address),
                        diagnostic: report(context.as_str(), detail.as_str()),
                    },
                )
            },
        }
    }

    /// The address the socket is bound to.
    pub fn address(&self) -> (address: &str)
        ensures
            address@ == self@,
    {
        self.address.as_str()
    }

    /// Takes what one attempt to accept came to and says what to do with it,
    /// as [`dispatch_spec`] rules. The listener is as it was: no attempt,
    /// failed or not, ends the loop.
    pub fn on_accept(&self, incoming: Incoming) -> (dispatch: Dispatch)
        ensures
            dispatch@ == dispatch_spec(incoming@),
    {
        match incoming {
            Incoming::Connected(remote) => Dispatch::Handle(Connection::new(remote)),
            Incoming::Failed(detail) => Dispatch::Report(
                report_kind(ErrorKind::Accept, detail.as_str()),
            ),
        }
    }
}

} // verus!
