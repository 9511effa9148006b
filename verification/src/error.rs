//! The error value that every part of the tunnel reports.

use vstd::prelude::*;
use vstd::string::to_string_from_display_ensures;

verus! {

/// The category of a failure, after the categories of `std::io::ErrorKind`
/// that the tunnel produces or passes on.
#[derive(Clone, Copy, Debug, PartialEq, Eq, Structural)]
pub enum ErrorKind {
    /// A configuration value was rejected.
    InvalidInput,
    /// The connection was aborted by the peer or could not be started.
    ConnectionAborted,
    /// The connection was reset by the peer.
    ConnectionReset,
    /// The local address is not available.
    AddrInUse,
    /// The operation did not complete in time.
    TimedOut,
    /// The stream or socket is not connected any more.
    NotConnected,
    /// Any other failure.
    Other,
}

/// A failure: its category and the text that describes it.
#[derive(Clone, Debug, PartialEq, Eq)]
pub struct TunnelError {
    pub kind: ErrorKind,
    pub message: String,
}

/// The mathematical value of a `TunnelError`.
pub struct TunnelErrorView {
    pub kind: ErrorKind,
    pub message: Seq<char>,
}

impl View for TunnelError {
    type V = TunnelErrorView;

    open spec fn view(&self) -> TunnelErrorView {
        TunnelErrorView { kind: self.kind, message: self.message@ }
    }
}

impl TunnelErrorView {
    /// The same text under the category `kind`.
    pub open spec fn with_kind(self, kind: ErrorKind) -> TunnelErrorView {
        TunnelErrorView { kind, message: self.message }
    }
}

/// The error with which a state machine refuses an event that is no outcome
/// of the operation it asked for.
pub open spec fn refusal() -> TunnelErrorView {
    TunnelErrorView {
        kind: ErrorKind::InvalidInput,
        message: "the event does not answer the pending operation"@,
    }
}

impl TunnelError {
    /// An error of the given category with the given text.
    pub fn new(kind: ErrorKind, message: String) -> (err: TunnelError)
        ensures
            err.kind == kind,
            err.message == message,
    {
        TunnelError { kind, message }
    }

    /// The same text under another category.
    pub fn with_kind(self, kind: ErrorKind) -> (err: TunnelError)
        ensures
            err.kind == kind,
            err.message == self.message,
            err@ == self@.with_kind(kind),
    {
        TunnelError { kind, message: self.message }
    }

    /// The error for an event that is no outcome of the pending operation.
    pub fn refusal() -> (err: TunnelError)
        ensures
            err@ == refusal(),
    {
        TunnelError {
            kind: ErrorKind::InvalidInput,
            message: "the event does not answer the pending operation".to_owned(),
        }
    }

    /// Reports `e` as a failure of no particular category: the category is
    /// `Other` and the text is what `e` displays.
    pub fn other<E: std::fmt::Display>(e: E) -> (err: TunnelError)
        ensures
            err.kind == ErrorKind::Other,
            to_string_from_display_ensures::<E>(&e, err.message),
    {
        TunnelError { kind: ErrorKind::Other, message: e.to_string() }
    }

    /// The text of the error.
    pub fn to_string(&self) -> (text: String)
        ensures
            text@ == self.message@,
    {
        self.message.clone()
    }
}

/// Reports `e` as a rejected configuration value: the category is
/// `InvalidInput` and the text is what `e` displays.
pub fn to_invalid_input_error<E: std::fmt::Display>(e: E) -> (err: TunnelError)
    ensures
        err.kind == ErrorKind::InvalidInput,
        to_string_from_display_ensures::<E>(&e, err.message),
{
    TunnelError { kind: ErrorKind::InvalidInput, message: e.to_string() }
}

} // verus!
